//! The connection points of an element, as far as the core deals with them: a
//! wrapper that is made from a pointer and released again.

use vstd::prelude::*;
use crate::calls::Settle;
use crate::engine::{Machine, Reply, Step};
use crate::object::Object;

verus! {

/// An owning wrapper around a connection point.
#[derive(Debug, PartialEq)]
pub struct Pad {
    pub pad: Object,
}

impl Pad {
    /// The pad behind a pointer that the engine handed back: none for a
    /// null pointer.
    pub open spec fn made(raw: usize) -> Option<Pad> {
        match Object::made(raw) {
            Some(object) => Some(Pad { pad: object }),
            None => None,
        }
    }

    /// Wraps a pointer that the engine handed back together with one unit
    /// of the reference count. A null pointer is no pad.
    pub fn new(raw: usize) -> (r: Option<Pad>)
        ensures
            r == Pad::made(raw),
    {
        match Object::new(raw) {
            Some(object) => Some(Pad { pad: object }),
            None => None,
        }
    }

    /// The address of the pad, to pass to the engine.
    pub fn gst_pad(&self) -> (raw: usize)
        ensures
            raw == self.pad.handle().address(),
            raw != 0,
    {
        self.pad.gst_object()
    }

    /// Ends the wrapper, as [`Object::release`] does.
    pub fn release(&mut self) -> (step: Step<'static, Settle, ()>)
        ensures
            step == old(self).pad.released(),
            final(self).pad == old(self).pad.spent(),
    {
        self.pad.release()
    }
}

/// Waits for the pointer to a pad. The result is absent where the engine
/// handed back null: no point of that name exists yet.
#[derive(Debug, PartialEq)]
pub struct FindPad;

impl<'a> Machine<'a> for FindPad {
    type Output = Option<Pad>;

    open spec fn resumed(self, reply: Reply) -> Step<'a, Self, Option<Pad>> {
        Step::Done(
            match reply {
                Reply::Pointer(raw) => Pad::made(raw),
                _ => None,
            },
        )
    }

    fn resume(self, reply: &Reply) -> (step: Step<'a, Self, Option<Pad>>) {
        match *reply {
            Reply::Pointer(raw) => Step::Done(Pad::new(raw)),
            _ => Step::Done(None),
        }
    }
}

} // verus!

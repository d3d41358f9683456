//! The message bus of a pipeline, as far as the core deals with it: a
//! wrapper that is made from a pointer and released again.

use vstd::prelude::*;
use crate::calls::Settle;
use crate::engine::{Machine, Reply, Step};
use crate::object::Object;

verus! {

/// An owning wrapper around a message bus.
#[derive(Debug, PartialEq)]
pub struct Bus {
    pub bus: Object,
}

impl Bus {
    /// The bus behind a pointer that the engine handed back: none for a
    /// null pointer.
    pub open spec fn made(raw: usize) -> Option<Bus> {
        match Object::made(raw) {
            Some(object) => Some(Bus { bus: object }),
            None => None,
        }
    }

    /// Wraps a pointer that the engine handed back together with one unit
    /// of the reference count. A null pointer is no bus.
    pub fn new(raw: usize) -> (r: Option<Bus>)
        ensures
            r == Bus::made(raw),
    {
        match Object::new(raw) {
            Some(object) => Some(Bus { bus: object }),
            None => None,
        }
    }

    /// The address of the bus, to pass to the engine.
    pub fn gst_bus(&self) -> (raw: usize)
        ensures
            raw == self.bus.handle().address(),
            raw != 0,
    {
        self.bus.gst_object()
    }

    /// Ends the wrapper, as [`Object::release`] does.
    pub fn release(&mut self) -> (step: Step<'static, Settle, ()>)
        ensures
            step == old(self).bus.released(),
            final(self).bus == old(self).bus.spent(),
    {
        self.bus.release()
    }
}

/// Waits for the pointer to a bus. The result is absent where the engine
/// handed back null: only a top-level pipeline has a bus to give.
#[derive(Debug, PartialEq)]
pub struct FindBus;

impl<'a> Machine<'a> for FindBus {
    type Output = Option<Bus>;

    open spec fn resumed(self, reply: Reply) -> Step<'a, Self, Option<Bus>> {
        Step::Done(
            match reply {
                Reply::Pointer(raw) => Bus::made(raw),
                _ => None,
            },
        )
    }

    fn resume(self, reply: &Reply) -> (step: Step<'a, Self, Option<Bus>>) {
        match *reply {
            Reply::Pointer(raw) => Step::Done(Bus::new(raw)),
            _ => Step::Done(None),
        }
    }
}

} // verus!

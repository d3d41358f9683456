//! The ownership bridge: wrappers that account for units of the engine's
//! reference count.
//!
//! The engine counts references by hand. A wrapper stands for at most one
//! unit of that count, and its [`Ownership`] says what it may do with it.
//! Each unit that a wrapper holds is given back by exactly one call, or
//! handed over to the engine by [`Object::transfer`]; no wrapper gives back
//! a unit twice, and no wrapper gives back a unit it does not hold.

use vstd::prelude::*;
use crate::calls::Settle;
use crate::engine::{Machine, Reply, Request, Step};
use crate::handle::Handle;

verus! {

/// What a wrapper may do with the object behind its handle.
#[derive(Clone, Copy, Debug, PartialEq, Eq, Structural)]
pub enum Ownership {
    /// The wrapper holds one unit of the reference count and gives it back
    /// when it is released.
    Owning,
    /// The wrapper is a passing view. It holds no unit and gives none back.
    Borrowed,
    /// The wrapper's unit went to the engine. The wrapper is inert: it
    /// gives nothing back and may not be used.
    Transferred,
}

impl Ownership {
    /// The units of the reference count that a wrapper in this state holds.
    pub open spec fn units(&self) -> int {
        if *self is Owning {
            1
        } else {
            0
        }
    }
}

/// A wrapper around one engine object.
#[derive(Debug, PartialEq)]
pub struct Object {
    handle: Handle,
    bridge: Ownership,
}

/// Waits for the engine to count one more reference to an object, and then
/// gives the wrapper that owns that reference.
#[derive(Debug, PartialEq)]
pub struct Acquire {
    pub handle: Handle,
}

impl<'a> Machine<'a> for Acquire {
    type Output = Object;

    open spec fn resumed(self, reply: Reply) -> Step<'a, Self, Object> {
        Step::Done(Object::wrap(self.handle, Ownership::Owning))
    }

    fn resume(self, reply: &Reply) -> (step: Step<'a, Self, Object>) {
        Step::Done(Object::owning(self.handle))
    }
}

impl Object {
    /// The wrapper around `handle` in the state `bridge`.
    pub closed spec fn wrap(handle: Handle, bridge: Ownership) -> Object {
        Object { handle, bridge }
    }

    /// The handle of the wrapped object.
    pub closed spec fn spec_handle(&self) -> Handle {
        self.handle
    }

    /// What this wrapper may do with the object.
    pub closed spec fn bridge(&self) -> Ownership {
        self.bridge
    }

    /// The handle of the wrapped object: a passing view, which carries no
    /// unit of the reference count.
    #[verifier::when_used_as_spec(spec_handle)]
    pub fn handle(&self) -> (h: Handle)
        ensures
            h == self.spec_handle(),
    {
        self.handle
    }

    /// The wrapper may be used: its unit, if it ever had one, has not gone
    /// to the engine.
    pub open spec fn live(&self) -> bool {
        !(self.bridge() is Transferred)
    }

    /// The wrapper behind a pointer that came with one unit of the reference
    /// count: none for a null pointer, an owning wrapper for any other.
    pub open spec fn made(raw: usize) -> Option<Object> {
        if raw == 0 {
            None
        } else {
            Some(Object::wrap(Handle::at(raw), Ownership::Owning))
        }
    }

    /// What [`Object::reference`] asks for: one more unit for this object.
    pub open spec fn referenced(&self) -> Step<'static, Acquire, Object> {
        Step::Call(Acquire { handle: self.handle() }, Request::Ref { object: self.handle() })
    }

    /// What [`Object::release`] asks for: the unit goes back if the wrapper
    /// holds one, and nothing happens otherwise.
    pub open spec fn released(&self) -> Step<'static, Settle, ()> {
        if self.bridge() is Owning {
            Step::Call(Settle, Request::Unref { object: self.handle() })
        } else {
            Step::Done(())
        }
    }

    /// The wrapper after [`Object::release`] or [`Object::transfer`]: inert
    /// if it held a unit, unchanged if it held none.
    pub open spec fn spent(&self) -> Object {
        if self.bridge() is Owning {
            Object::wrap(self.handle(), Ownership::Transferred)
        } else {
            *self
        }
    }

    /// The wrapper around a handle in a state has that handle and state.
    pub broadcast proof fn lemma_wrap(handle: Handle, bridge: Ownership)
        ensures
            (#[trigger] Object::wrap(handle, bridge)).spec_handle() == handle,
            Object::wrap(handle, bridge).bridge() == bridge,
    {
    }

    pub(crate) fn owning(handle: Handle) -> (o: Object)
        ensures
            o == Object::wrap(handle, Ownership::Owning),
            o.bridge() is Owning,
            o.handle() == handle,
    {
        Object { handle, bridge: Ownership::Owning }
    }

    /// Wraps a pointer that the engine, or a collaborator, handed over
    /// together with one unit of the reference count. A null pointer is no
    /// object; any other becomes an owning wrapper, and no call is made.
    pub fn new(raw: usize) -> (r: Option<Object>)
        ensures
            r == Object::made(raw),
            raw == 0 <==> r is None,
            r matches Some(o) ==> o.bridge() is Owning && o.handle().address() == raw,
    {
        match Handle::from_raw(raw) {
            Some(handle) => Some(Object { handle, bridge: Ownership::Owning }),
            None => None,
        }
    }

    /// Takes a unit of the reference count of the object behind `handle`:
    /// asks the engine to count one more reference, and then gives the
    /// wrapper that owns it.
    pub fn acquire(handle: Handle) -> (step: Step<'static, Acquire, Object>)
        ensures
            step == Step::<Acquire, Object>::Call(
                Acquire { handle },
                Request::Ref { object: handle },
            ),
    {
        Step::Call(Acquire { handle }, Request::Ref { object: handle })
    }

    /// A passing view of the object behind `handle`. No call is made and no
    /// unit changes hands; the view must not outlive the owner it was taken
    /// from.
    pub fn borrow(handle: Handle) -> (o: Object)
        ensures
            o == Object::wrap(handle, Ownership::Borrowed),
            o.bridge() is Borrowed,
            o.handle() == handle,
    {
        Object { handle, bridge: Ownership::Borrowed }
    }

    /// A second owner of the same object: asks the engine to count one more
    /// reference, and then gives the wrapper that owns it. This wrapper is
    /// left as it is, and each of the two can be released on its own.
    pub fn reference(&self) -> (step: Step<'static, Acquire, Object>)
        requires
            self.live(),
        ensures
            step == self.referenced(),
    {
        Step::Call(Acquire { handle: self.handle }, Request::Ref { object: self.handle })
    }

    /// Hands the wrapper's unit over to the engine, for a call that takes
    /// ownership of the object. Gives the bare handle and leaves the wrapper
    /// inert, so that releasing it later gives nothing back.
    pub fn transfer(&mut self) -> (handle: Handle)
        requires
            old(self).bridge() is Owning,
        ensures
            handle == old(self).handle(),
            *final(self) == old(self).spent(),
            final(self).bridge() is Transferred,
    {
        self.bridge = Ownership::Transferred;
        self.handle
    }

    /// Ends the wrapper. An owning wrapper asks the engine to take its unit
    /// back, once, and is inert from then on; a borrowed or inert wrapper
    /// asks for nothing and stays as it is.
    pub fn release(&mut self) -> (step: Step<'static, Settle, ()>)
        ensures
            step == old(self).released(),
            *final(self) == old(self).spent(),
            !(final(self).bridge() is Owning),
    {
        match self.bridge {
            Ownership::Owning => {
                self.bridge = Ownership::Transferred;
                Step::Call(Settle, Request::Unref { object: self.handle })
            },
            _ => Step::Done(()),
        }
    }

    /// Whether this wrapper holds a unit of the reference count.
    pub fn is_owning(&self) -> (b: bool)
        ensures
            b == (self.bridge() is Owning),
    {
        match self.bridge {
            Ownership::Owning => true,
            _ => false,
        }
    }

    /// Whether this wrapper may be used.
    pub fn is_live(&self) -> (b: bool)
        ensures
            b == self.live(),
    {
        match self.bridge {
            Ownership::Transferred => false,
            _ => true,
        }
    }

    /// What this wrapper may do with the object.
    pub fn ownership(&self) -> (b: Ownership)
        ensures
            b == self.bridge(),
    {
        self.bridge
    }

    /// The address of the wrapped object, to pass to the engine.
    pub fn gst_object(&self) -> (raw: usize)
        ensures
            raw == self.handle().address(),
            raw != 0,
    {
        self.handle.addr()
    }

    /// Names the object.
    pub fn set_name<'a>(&self, name: &'a str) -> (step: Step<'a, Settle, ()>)
        requires
            self.live(),
        ensures
            step == Step::<Settle, ()>::Call(
                Settle,
                Request::SetName { object: self.handle(), name },
            ),
    {
        Step::Call(Settle, Request::SetName { object: self.handle, name })
    }

    /// Every unit is accounted for. The unit that a release gives back is
    /// the unit the wrapper held; a wrapper that was released or transferred
    /// holds none and gives none back again; and the owner that a reference
    /// yields holds exactly the unit that the reference took.
    pub proof fn law_units_balance(o: Object, reply: Reply)
        ensures
            o.released() matches Step::Call(_, give) ==> o.bridge().units() + give.units(
                o.handle(),
            ) == o.spent().bridge().units(),
            o.released() is Done ==> o.bridge().units() == 0 && o.spent() == o,
            o.spent().bridge().units() == 0,
            o.spent().released() is Done,
            o.spent().spent() == o.spent(),
            o.referenced() matches Step::Call(m, take) && m.resumed(reply) matches Step::Done(
                copy,
            ) && copy.handle() == o.handle() && copy.bridge().units() == take.units(o.handle())
                && take.units(o.handle()) == 1,
    {
    }
}

/// What a wrapper is made of, for proofs outside this file.
pub broadcast group group_object {
    Object::lemma_wrap,
}

} // verus!

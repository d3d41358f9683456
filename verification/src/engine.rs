//! The boundary to the engine: calls, replies, and the shape of an operation.
//!
//! The core makes no call itself. An operation says which call it needs as
//! a [`Request`], the caller performs it and hands back the [`Reply`], and
//! the operation goes on from there: to one more call, or to its result.
//! Whatever the engine answers, every reply is read here, and a reply of
//! the wrong shape counts as a failed call.

use vstd::prelude::*;
use crate::abi::{Format, SeekFlags, SeekType, State, StateChangeReturn};
use crate::handle::Handle;
use crate::rate::Rate;

verus! {

/// One call into the engine, with its arguments as plain values.
#[derive(Debug, PartialEq)]
pub enum Request<'a> {
    /// Look up the factory `factory` and make an element with it. Without
    /// an `instance` name the engine picks one.
    FactoryMake { factory: &'a str, instance: Option<&'a str> },
    /// Turn the floating reference of a new object into an owned one.
    RefSink { object: Handle },
    /// Take one more unit of the object's reference count.
    Ref { object: Handle },
    /// Give back one unit of the object's reference count.
    Unref { object: Handle },
    /// Connect an output of `src` to an input of `dst`.
    Link { src: Handle, dst: Handle },
    /// Disconnect every connection from `src` to `dst`.
    Unlink { src: Handle, dst: Handle },
    /// Ask for the element's message bus.
    GetBus { element: Handle },
    /// Name the object.
    SetName { object: Handle, name: &'a str },
    /// Ask the element to go to `state`.
    SetState { element: Handle, state: State },
    /// Ask for the element's state, waiting up to `timeout` nanoseconds for
    /// a change in progress to end.
    GetState { element: Handle, timeout: u64 },
    /// Send an event to the element. The engine takes the event over.
    SendEvent { element: Handle, event: Handle },
    /// Seek to `position`, counted from the start of the stream.
    SeekSimple { element: Handle, format: Format, flags: SeekFlags, position: i64 },
    /// Seek to a segment, to be played at `rate`.
    Seek {
        element: Handle,
        rate: Rate,
        format: Format,
        flags: SeekFlags,
        start_type: SeekType,
        start: i64,
        stop_type: SeekType,
        stop: i64,
    },
    /// Ask for the length of the stream.
    QueryDuration { element: Handle, format: Format },
    /// Ask for the position in the stream.
    QueryPosition { element: Handle, format: Format },
    /// Ask for the element's connection point `name`, if it exists already.
    GetStaticPad { element: Handle, name: &'a str },
    /// Ask whether a property value holds an element.
    ValueHoldsElement { value: Handle },
    /// Ask for the object that a property value holds.
    ValueGetObject { value: Handle },
    /// Set the property `key` of `object` to the element `value`.
    SetProperty { object: Handle, key: &'a str, value: Handle },
}

impl<'a> Request<'a> {
    /// The units of `object`'s reference count that this call hands to the
    /// caller: one for a call that takes a unit, minus one for the call that
    /// gives one back, none for any other call and any other object.
    pub open spec fn units(self, object: Handle) -> int {
        match self {
            Request::RefSink { object: o } => if o == object {
                1
            } else {
                0
            },
            Request::Ref { object: o } => if o == object {
                1
            } else {
                0
            },
            Request::Unref { object: o } => if o == object {
                -1
            } else {
                0
            },
            _ => 0,
        }
    }
}

/// What the engine handed back from one call.
#[derive(Clone, Copy, Debug, PartialEq, Eq, Structural)]
pub enum Reply {
    /// The call returns nothing.
    Nothing,
    /// A truth value, as the engine's integer.
    Flag(i32),
    /// The address of an object, or null.
    Pointer(usize),
    /// The number of a state change result.
    StateChange(u32),
    /// The numbers of a state change result and of two states.
    States { result: u32, current: u32, pending: u32 },
    /// Whether a query was answered, and the value it gave.
    Value { answered: i32, value: i64 },
}

/// The state of an element as the engine reported it.
#[derive(Clone, Copy, Debug, PartialEq, Eq, Structural)]
pub struct StateReport {
    pub current: State,
    pub pending: State,
    pub result: StateChangeReturn,
}

impl Reply {
    /// The engine answered with its value for "true", which is one.
    pub open spec fn spec_is_true(&self) -> bool {
        *self == Reply::Flag(1)
    }

    /// The engine answered with a truth value other than zero.
    pub open spec fn spec_is_set(&self) -> bool {
        *self matches Reply::Flag(v) && v != 0
    }

    /// The object that the engine handed back: none for a null pointer.
    pub open spec fn spec_object(&self) -> Option<Handle> {
        match *self {
            Reply::Pointer(p) => if p == 0 {
                None
            } else {
                Some(Handle::at(p))
            },
            _ => None,
        }
    }

    /// The state change result that the engine handed back.
    pub open spec fn spec_state_change(&self) -> Option<StateChangeReturn> {
        match *self {
            Reply::StateChange(code) => StateChangeReturn::decoded(code),
            _ => None,
        }
    }

    /// The state report that the engine handed back: none unless all three
    /// numbers are known.
    pub open spec fn spec_state_report(&self) -> Option<StateReport> {
        match *self {
            Reply::States { result, current, pending } => match (
                StateChangeReturn::decoded(result),
                State::decoded(current),
                State::decoded(pending),
            ) {
                (Some(r), Some(c), Some(p)) => Some(
                    StateReport { current: c, pending: p, result: r },
                ),
                _ => None,
            },
            _ => None,
        }
    }

    /// The value that a query gave: none unless the engine answered the
    /// query, and none for a negative value, which stands for "unknown".
    pub open spec fn spec_value(&self) -> Option<i64> {
        match *self {
            Reply::Value { answered, value } => if answered == 1 && value >= 0 {
                Some(value)
            } else {
                None
            },
            _ => None,
        }
    }

    /// Whether the engine answered with its value for "true", which is one.
    #[verifier::when_used_as_spec(spec_is_true)]
    pub fn is_true(&self) -> (b: bool)
        ensures
            b == self.spec_is_true(),
    {
        match *self {
            Reply::Flag(v) => v == 1,
            _ => false,
        }
    }

    /// Whether the engine answered with a truth value other than zero.
    #[verifier::when_used_as_spec(spec_is_set)]
    pub fn is_set(&self) -> (b: bool)
        ensures
            b == self.spec_is_set(),
    {
        match *self {
            Reply::Flag(v) => v != 0,
            _ => false,
        }
    }

    /// The object that the engine handed back: none for a null pointer.
    #[verifier::when_used_as_spec(spec_object)]
    pub fn object(&self) -> (r: Option<Handle>)
        ensures
            r == self.spec_object(),
    {
        match *self {
            Reply::Pointer(p) => Handle::from_raw(p),
            _ => None,
        }
    }

    /// The state change result that the engine handed back.
    #[verifier::when_used_as_spec(spec_state_change)]
    pub fn state_change(&self) -> (r: Option<StateChangeReturn>)
        ensures
            r == self.spec_state_change(),
    {
        match *self {
            Reply::StateChange(code) => StateChangeReturn::from_code(code),
            _ => None,
        }
    }

    /// The state report that the engine handed back.
    #[verifier::when_used_as_spec(spec_state_report)]
    pub fn state_report(&self) -> (r: Option<StateReport>)
        ensures
            r == self.spec_state_report(),
    {
        match *self {
            Reply::States { result, current, pending } => {
                match (
                    StateChangeReturn::from_code(result),
                    State::from_code(current),
                    State::from_code(pending),
                ) {
                    (Some(r), Some(c), Some(p)) => Some(
                        StateReport { current: c, pending: p, result: r },
                    ),
                    _ => None,
                }
            },
            _ => None,
        }
    }

    /// The value that a query gave. It is never negative.
    #[verifier::when_used_as_spec(spec_value)]
    pub fn value(&self) -> (r: Option<i64>)
        ensures
            r == self.spec_value(),
            r matches Some(v) ==> v >= 0,
    {
        match *self {
            Reply::Value { answered, value } => {
                if answered == 1 && value >= 0 {
                    Some(value)
                } else {
                    None
                }
            },
            _ => None,
        }
    }
}

impl StateReport {
    /// The element has settled in `state`: that is its current state, and
    /// the last change succeeded.
    pub open spec fn spec_settled_in(&self, state: State) -> bool {
        self.current == state && self.result == StateChangeReturn::Success
    }

    /// Whether the element has settled in `state`.
    #[verifier::when_used_as_spec(spec_settled_in)]
    pub fn settled_in(&self, state: State) -> (b: bool)
        ensures
            b == self.spec_settled_in(state),
    {
        self.current == state && self.result == StateChangeReturn::Success
    }
}

/// Where an operation stands: it needs one more call, or it is over.
#[derive(Debug, PartialEq)]
pub enum Step<'a, M, T> {
    /// Perform the call, then resume the operation with the reply.
    Call(M, Request<'a>),
    /// The operation is over, with this result.
    Done(T),
}

/// An operation that waits for the reply to the call it asked for.
pub trait Machine<'a>: Sized {
    /// What the operation gives when it is over.
    type Output;

    /// Where the operation stands after `reply`.
    spec fn resumed(self, reply: Reply) -> Step<'a, Self, Self::Output>;

    /// Goes on with the reply to the call that the operation asked for.
    fn resume(self, reply: &Reply) -> (step: Step<'a, Self, Self::Output>)
        ensures
            step == self.resumed(*reply),
    ;
}

/// What an operation did against an engine that gave `replies`, in order:
/// the calls it asked for, and its result, if it got that far.
pub struct Run<'a, T> {
    pub calls: Seq<Request<'a>>,
    pub result: Option<T>,
}

/// Follows an operation from `step` on, answering its calls with `replies`
/// in order. A call for which no reply is left is still counted as asked
/// for, and the operation then has no result.
pub open spec fn run<'a, M: Machine<'a>>(
    step: Step<'a, M, M::Output>,
    replies: Seq<Reply>,
) -> Run<'a, M::Output>
    decreases replies.len(),
{
    match step {
        Step::Done(output) => Run { calls: Seq::empty(), result: Some(output) },
        Step::Call(machine, request) => if replies.len() == 0 {
            Run { calls: seq![request], result: None }
        } else {
            let rest = run(machine.resumed(replies[0]), replies.drop_first());
            Run { calls: seq![request] + rest.calls, result: rest.result }
        },
    }
}

} // verus!

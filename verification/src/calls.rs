//! Operations of a single call, one for each way of reading a reply.

use vstd::prelude::*;
use crate::abi::{State, StateChangeReturn};
use crate::engine::{Machine, Reply, StateReport, Step};

verus! {

/// Waits for a call that returns nothing. Any reply ends it.
#[derive(Debug, PartialEq)]
pub struct Settle;

impl<'a> Machine<'a> for Settle {
    type Output = ();

    open spec fn resumed(self, reply: Reply) -> Step<'a, Self, ()> {
        Step::Done(())
    }

    fn resume(self, reply: &Reply) -> (step: Step<'a, Self, ()>) {
        Step::Done(())
    }
}

/// Waits for a truth value. The result is `true` only for the engine's
/// "true"; a refusal, or a reply of another shape, gives `false`.
#[derive(Debug, PartialEq)]
pub struct Confirm;

impl<'a> Machine<'a> for Confirm {
    type Output = bool;

    open spec fn resumed(self, reply: Reply) -> Step<'a, Self, bool> {
        Step::Done(reply.spec_is_true())
    }

    fn resume(self, reply: &Reply) -> (step: Step<'a, Self, bool>) {
        Step::Done(reply.is_true())
    }
}

/// Waits for the result of a state change request. The result is absent
/// where the engine's answer is none of the four known results.
#[derive(Debug, PartialEq)]
pub struct Transition;

impl<'a> Machine<'a> for Transition {
    type Output = Option<StateChangeReturn>;

    open spec fn resumed(self, reply: Reply) -> Step<'a, Self, Option<StateChangeReturn>> {
        Step::Done(reply.spec_state_change())
    }

    fn resume(self, reply: &Reply) -> (step: Step<'a, Self, Option<StateChangeReturn>>) {
        Step::Done(reply.state_change())
    }
}

/// Waits for a state report.
#[derive(Debug, PartialEq)]
pub struct Inspect;

impl<'a> Machine<'a> for Inspect {
    type Output = Option<StateReport>;

    open spec fn resumed(self, reply: Reply) -> Step<'a, Self, Option<StateReport>> {
        Step::Done(reply.spec_state_report())
    }

    fn resume(self, reply: &Reply) -> (step: Step<'a, Self, Option<StateReport>>) {
        Step::Done(reply.state_report())
    }
}

/// Waits for a state report and tells whether the element has settled in
/// the wanted state: the report names exactly that state as current, and
/// the last change as a success. The pending state plays no part.
#[derive(Debug, PartialEq)]
pub struct Settled {
    pub wanted: State,
}

impl Settled {
    /// Whether a reply shows the element settled in `wanted`.
    pub open spec fn holds(wanted: State, reply: Reply) -> bool {
        reply matches Reply::States { result, current, .. } && current == wanted.spec_code()
            && result == StateChangeReturn::Success.spec_code()
    }

    /// An element is settled in one state at most: of the questions about
    /// two different states, one reply answers at most one with `true`.
    pub proof fn law_one_state_at_most(a: State, b: State, reply: Reply)
        requires
            a != b,
        ensures
            !(Settled::holds(a, reply) && Settled::holds(b, reply)),
    {
    }

    /// The answer agrees with the state report, wherever the reply can be
    /// read as one: it is `true` exactly if the report names the wanted
    /// state as current and success as the result.
    pub proof fn law_agrees_with_report(wanted: State, reply: Reply)
        ensures
            reply.spec_state_report() matches Some(report) ==> Settled::holds(wanted, reply)
                == report.spec_settled_in(wanted),
            !(reply is States) ==> !Settled::holds(wanted, reply),
    {
    }
}

impl<'a> Machine<'a> for Settled {
    type Output = bool;

    open spec fn resumed(self, reply: Reply) -> Step<'a, Self, bool> {
        Step::Done(Settled::holds(self.wanted, reply))
    }

    fn resume(self, reply: &Reply) -> (step: Step<'a, Self, bool>) {
        match *reply {
            Reply::States { result, current, pending: _ } => Step::Done(
                current == self.wanted.code() && result == StateChangeReturn::Success.code(),
            ),
            _ => Step::Done(false),
        }
    }
}

/// Waits for the answer to a position or duration query. The result is
/// absent where the engine could not answer, and never negative.
#[derive(Debug, PartialEq)]
pub struct Measure;

impl<'a> Machine<'a> for Measure {
    type Output = Option<i64>;

    open spec fn resumed(self, reply: Reply) -> Step<'a, Self, Option<i64>> {
        Step::Done(reply.spec_value())
    }

    fn resume(self, reply: &Reply) -> (step: Step<'a, Self, Option<i64>>) {
        Step::Done(reply.value())
    }
}

} // verus!

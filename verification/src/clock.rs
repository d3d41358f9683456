//! Positions and durations in other units: seconds, and the fraction of
//! the stream that has played.
//!
//! Both are given exactly, as a ratio of two integers. A ratio exists only
//! where every measurement it is made of exists: an unknown position or
//! duration is never replaced by a number.

use vstd::prelude::*;
use crate::abi::Format;
use crate::engine::{run, Machine, Reply, Request, Step};
use crate::handle::Handle;

verus! {

/// The nanoseconds in one second.
pub const NANOSECONDS_PER_SECOND: i64 = 1_000_000_000;

/// The exact quotient of two integers, `numerator / denominator`.
#[derive(Clone, Copy, Debug, PartialEq, Eq, Structural)]
pub struct Ratio {
    pub numerator: i64,
    pub denominator: i64,
}

impl Ratio {
    /// A count of nanoseconds, in seconds.
    pub open spec fn spec_seconds(ns: Option<i64>) -> Option<Ratio> {
        match ns {
            Some(ns) => Some(Ratio { numerator: ns, denominator: NANOSECONDS_PER_SECOND }),
            None => None,
        }
    }

    /// The position as a fraction of the duration: `position / duration`
    /// where both are known, nothing where either is not.
    pub open spec fn spec_fraction(position: Option<i64>, duration: Option<i64>) -> Option<Ratio> {
        match (position, duration) {
            (Some(position), Some(duration)) => Some(
                Ratio { numerator: position, denominator: duration },
            ),
            _ => None,
        }
    }

    /// A count of nanoseconds, in seconds.
    #[verifier::when_used_as_spec(spec_seconds)]
    pub fn seconds(ns: Option<i64>) -> (r: Option<Ratio>)
        ensures
            r == Ratio::spec_seconds(ns),
            r is Some <==> ns is Some,
    {
        match ns {
            Some(ns) => Some(Ratio { numerator: ns, denominator: NANOSECONDS_PER_SECOND }),
            None => None,
        }
    }

    /// The position as a fraction of the duration: `position / duration`
    /// where both are known, nothing where either is not.
    #[verifier::when_used_as_spec(spec_fraction)]
    pub fn fraction(position: Option<i64>, duration: Option<i64>) -> (r: Option<Ratio>)
        ensures
            r == Ratio::spec_fraction(position, duration),
            r is Some <==> position is Some && duration is Some,
            r matches Some(ratio) ==> ratio.numerator == position->0 && ratio.denominator
                == duration->0,
    {
        match (position, duration) {
            (Some(position), Some(duration)) => Some(
                Ratio { numerator: position, denominator: duration },
            ),
            _ => None,
        }
    }
}

/// Waits for the answer to a query in nanoseconds, and gives it in seconds.
#[derive(Debug, PartialEq)]
pub struct Seconds;

impl<'a> Machine<'a> for Seconds {
    type Output = Option<Ratio>;

    open spec fn resumed(self, reply: Reply) -> Step<'a, Self, Option<Ratio>> {
        Step::Done(Ratio::spec_seconds(reply.spec_value()))
    }

    fn resume(self, reply: &Reply) -> (step: Step<'a, Self, Option<Ratio>>) {
        Step::Done(Ratio::seconds(reply.value()))
    }
}

/// The measuring of how far playback has come, waiting for a reply.
#[derive(Debug, PartialEq)]
pub enum Progress {
    /// The element was asked for its position.
    Position { element: Handle },
    /// The element was asked for its duration; the position is known, or
    /// known to be unknown.
    Duration { position: Option<i64> },
}

impl Progress {
    /// The first step of measuring the progress of `element`.
    pub open spec fn begun(element: Handle) -> Step<'static, Progress, Option<Ratio>> {
        Step::Call(
            Progress::Position { element },
            Request::QueryPosition { element, format: Format::Time },
        )
    }

    /// The progress is the position over the duration, exactly, where the
    /// engine can tell both, and absent where it cannot tell either one.
    /// Both are asked for, the position first, whatever the first answer.
    pub proof fn law_progress(element: Handle, replies: Seq<Reply>)
        requires
            replies.len() >= 2,
        ensures
            ({
                let done = run(Progress::begun(element), replies);
                let position = replies[0].spec_value();
                let duration = replies[1].spec_value();
                &&& done.calls == seq![
                    Request::QueryPosition { element, format: Format::Time },
                    Request::QueryDuration { element, format: Format::Time },
                ]
                &&& done.result == Some(Ratio::spec_fraction(position, duration))
                &&& position is Some && duration is Some ==> done.result == Some(
                    Some(Ratio { numerator: position->0, denominator: duration->0 }),
                )
                &&& position is None || duration is None ==> done.result == Some(None::<Ratio>)
            }),
    {
        reveal_with_fuel(run, 4);
        assert(replies.drop_first()[0] == replies[1]);
        let done = run(Progress::begun(element), replies);
        assert(done.calls =~= seq![
            Request::QueryPosition { element, format: Format::Time },
            Request::QueryDuration { element, format: Format::Time },
        ]);
    }
}

impl<'a> Machine<'a> for Progress {
    type Output = Option<Ratio>;

    open spec fn resumed(self, reply: Reply) -> Step<'a, Self, Option<Ratio>> {
        match self {
            Progress::Position { element } => Step::Call(
                Progress::Duration { position: reply.spec_value() },
                Request::QueryDuration { element, format: Format::Time },
            ),
            Progress::Duration { position } => Step::Done(
                Ratio::spec_fraction(position, reply.spec_value()),
            ),
        }
    }

    fn resume(self, reply: &Reply) -> (step: Step<'a, Self, Option<Ratio>>) {
        match self {
            Progress::Position { element } => Step::Call(
                Progress::Duration { position: reply.value() },
                Request::QueryDuration { element, format: Format::Time },
            ),
            Progress::Duration { position } => Step::Done(Ratio::fraction(position, reply.value())),
        }
    }
}

} // verus!

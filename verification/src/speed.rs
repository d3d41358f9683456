//! Changing the playback rate.
//!
//! A rate of zero is a pause: the element is asked to go to the paused
//! state, and nothing is sought. Any other rate is a seek that starts from
//! where playback stands: a forward rate plays from there to the end of the
//! stream, a reverse rate plays from there back to the start. Where the
//! engine cannot tell the position, nothing is sought and the change fails.

use vstd::prelude::*;
use crate::abi::{
    Format,
    SeekFlags,
    SeekType,
    State,
    StateChangeReturn,
    SEEK_FLAG_ACCURATE,
    SEEK_FLAG_FLUSH,
    SEEK_FLAG_SKIP,
};
use crate::engine::{run, Machine, Reply, Request, Step};
use crate::handle::Handle;
use crate::rate::Rate;

verus! {

/// The options of a rate change: discard what is queued, land exactly, and
/// let the engine skip data at rates other than one.
pub const SPEED_SEEK_FLAGS: u32 = 19;

/// The stop position that stands for the end of the stream.
pub const SEEK_TO_END: i64 = -1;

/// A rate change that waits for a reply.
#[derive(Debug, PartialEq)]
pub enum SpeedChange {
    /// The element was asked to pause.
    Pausing,
    /// The element was asked where playback stands.
    Locating { element: Handle, rate: Rate },
    /// The element was asked to seek.
    Seeking,
}

impl SpeedChange {
    /// A pause went through if the engine gave any answer but failure.
    pub open spec fn paused(reply: Reply) -> bool {
        reply matches Reply::StateChange(code) && code != StateChangeReturn::Failure.spec_code()
    }

    /// The seek that sets `rate` when playback stands at `position`: in
    /// nanoseconds, from `position` to the end for a forward rate, and from
    /// the start to `position` for any other.
    pub open spec fn segment(element: Handle, rate: Rate, position: i64) -> Request<'static> {
        Request::Seek {
            element,
            rate,
            format: Format::Time,
            flags: SeekFlags { bits: SPEED_SEEK_FLAGS },
            start_type: SeekType::Absolute,
            start: if rate.is_forward() {
                position
            } else {
                0
            },
            stop_type: SeekType::Absolute,
            stop: if rate.is_forward() {
                SEEK_TO_END
            } else {
                position
            },
        }
    }

    /// The first step of a change to `rate` on `element`.
    pub open spec fn begun(element: Handle, rate: Rate) -> Step<'static, SpeedChange, bool> {
        if rate.is_zero() {
            Step::Call(SpeedChange::Pausing, Request::SetState { element, state: State::Paused })
        } else {
            Step::Call(
                SpeedChange::Locating { element, rate },
                Request::QueryPosition { element, format: Format::Time },
            )
        }
    }

    /// Begins a change to `rate` on `element`.
    pub(crate) fn begin(element: Handle, rate: Rate) -> (step: Step<'static, SpeedChange, bool>)
        ensures
            step == SpeedChange::begun(element, rate),
    {
        if rate.bits == 0 || rate.bits == crate::rate::RATE_SIGN_BIT {
            Step::Call(SpeedChange::Pausing, Request::SetState { element, state: State::Paused })
        } else {
            Step::Call(
                SpeedChange::Locating { element, rate },
                Request::QueryPosition { element, format: Format::Time },
            )
        }
    }

    /// The options of a rate change: skip, accurate and flush together.
    pub fn flags() -> (f: SeekFlags)
        ensures
            f == (SeekFlags { bits: SPEED_SEEK_FLAGS }),
            f.bits == SEEK_FLAG_SKIP | SEEK_FLAG_ACCURATE | SEEK_FLAG_FLUSH,
            f.contains(SeekFlags { bits: SEEK_FLAG_SKIP }),
            f.contains(SeekFlags { bits: SEEK_FLAG_ACCURATE }),
            f.contains(SeekFlags { bits: SEEK_FLAG_FLUSH }),
    {
        assert(19u32 == 16u32 | 2u32 | 1u32) by (bit_vector);
        assert(16u32 | 2u32 == 18u32) by (bit_vector);
        assert(18u32 | 1u32 == 19u32) by (bit_vector);
        assert(19u32 & 16u32 == 16u32 && 19u32 & 2u32 == 2u32 && 19u32 & 1u32 == 1u32)
            by (bit_vector);
        SeekFlags::from_bits(SEEK_FLAG_SKIP).with(SeekFlags::from_bits(SEEK_FLAG_ACCURATE)).with(
            SeekFlags::from_bits(SEEK_FLAG_FLUSH),
        )
    }

    /// A rate of zero pauses, whatever the engine answers and whatever the
    /// rate was before: the one call made is the request to go to the paused
    /// state, nothing is sought, and the result is whether the pause went
    /// through.
    pub proof fn law_zero_rate_pauses(element: Handle, rate: Rate, replies: Seq<Reply>)
        requires
            rate.is_zero(),
        ensures
            run(SpeedChange::begun(element, rate), replies).calls == seq![
                Request::SetState { element, state: State::Paused },
            ],
            replies.len() > 0 ==> run(SpeedChange::begun(element, rate), replies).result == Some(
                SpeedChange::paused(replies[0]),
            ),
    {
        reveal_with_fuel(run, 3);
        let r = run(SpeedChange::begun(element, rate), replies);
        assert(r.calls =~= seq![Request::SetState { element, state: State::Paused }]);
    }

    /// A rate other than zero never pauses. The element is asked where
    /// playback stands. If the engine cannot tell, nothing is sought and the
    /// change fails. If it can, the position is not negative, and one seek
    /// follows, with the rate as it was given: from the position to the end
    /// of the stream for a forward rate, from the start of the stream to the
    /// position for any other. The result is the engine's answer to that
    /// seek.
    pub proof fn law_other_rates_seek(element: Handle, rate: Rate, replies: Seq<Reply>)
        requires
            !rate.is_zero(),
            replies.len() >= 2,
        ensures
            ({
                let done = run(SpeedChange::begun(element, rate), replies);
                let locate = Request::QueryPosition { element, format: Format::Time };
                match replies[0].spec_value() {
                    None => done.calls == seq![locate] && done.result == Some(false),
                    Some(position) => {
                        &&& position >= 0
                        &&& done.calls == seq![locate, SpeedChange::segment(element, rate, position)]
                        &&& done.result == Some(replies[1].spec_is_true())
                        &&& SpeedChange::segment(element, rate, position) matches Request::Seek {
                            rate: sought,
                            start,
                            stop,
                            ..
                        } && sought == rate && (if rate.is_forward() {
                            start == position && stop == SEEK_TO_END
                        } else {
                            start == 0 && stop == position && start <= stop
                        })
                    },
                }
            }),
    {
        reveal_with_fuel(run, 4);
        let done = run(SpeedChange::begun(element, rate), replies);
        let locate = Request::QueryPosition { element, format: Format::Time };
        match replies[0].spec_value() {
            None => {
                assert(done.calls =~= seq![locate]);
            },
            Some(position) => {
                assert(replies.drop_first()[0] == replies[1]);
                assert(done.calls =~= seq![locate, SpeedChange::segment(element, rate, position)]);
            },
        }
    }
}

impl<'a> Machine<'a> for SpeedChange {
    type Output = bool;

    open spec fn resumed(self, reply: Reply) -> Step<'a, Self, bool> {
        match self {
            SpeedChange::Pausing => Step::Done(SpeedChange::paused(reply)),
            SpeedChange::Locating { element, rate } => match reply.spec_value() {
                None => Step::Done(false),
                Some(position) => Step::Call(
                    SpeedChange::Seeking,
                    SpeedChange::segment(element, rate, position),
                ),
            },
            SpeedChange::Seeking => Step::Done(reply.spec_is_true()),
        }
    }

    fn resume(self, reply: &Reply) -> (step: Step<'a, Self, bool>) {
        match self {
            SpeedChange::Pausing => {
                match *reply {
                    Reply::StateChange(code) => Step::Done(
                        code != StateChangeReturn::Failure.code(),
                    ),
                    _ => Step::Done(false),
                }
            },
            SpeedChange::Locating { element, rate } => {
                match reply.value() {
                    None => Step::Done(false),
                    Some(position) => {
                        let forward = 0 < rate.bits && rate.bits <= crate::rate::RATE_INFINITY_BITS;
                        let start: i64 = if forward {
                            position
                        } else {
                            0
                        };
                        let stop: i64 = if forward {
                            SEEK_TO_END
                        } else {
                            position
                        };
                        Step::Call(
                            SpeedChange::Seeking,
                            Request::Seek {
                                element,
                                rate,
                                format: Format::Time,
                                flags: SpeedChange::flags(),
                                start_type: SeekType::Absolute,
                                start,
                                stop_type: SeekType::Absolute,
                                stop,
                            },
                        )
                    },
                }
            },
            SpeedChange::Seeking => Step::Done(reply.is_true()),
        }
    }
}

} // verus!

//! The engine's numbering of states, results, units and seek options.
//!
//! The engine speaks in small integers. Each enumeration here names the
//! values the core knows, gives each its number, and reads a number back.
//! A number outside the table is read as `None`, never guessed at.

use vstd::prelude::*;

verus! {

/// A timeout that never runs out: a wait with it lasts until the engine has
/// an answer.
pub const CLOCK_TIME_NONE: u64 = 0xffff_ffff_ffff_ffff;

/// A timeout of zero: ask once and return at once.
pub const CLOCK_TIME_POLL: u64 = 0;

/// The lifecycle state of an element, or `VoidPending` where no state is
/// pending.
#[derive(Clone, Copy, Debug, PartialEq, Eq, Structural)]
pub enum State {
    VoidPending,
    Null,
    Ready,
    Paused,
    Playing,
}

impl State {
    /// The engine's number for this state.
    pub open spec fn spec_code(&self) -> u32 {
        match *self {
            State::VoidPending => 0,
            State::Null => 1,
            State::Ready => 2,
            State::Paused => 3,
            State::Playing => 4,
        }
    }

    /// The state that the engine numbers `code`, if there is one.
    pub open spec fn decoded(code: u32) -> Option<State> {
        if code == 0 {
            Some(State::VoidPending)
        } else if code == 1 {
            Some(State::Null)
        } else if code == 2 {
            Some(State::Ready)
        } else if code == 3 {
            Some(State::Paused)
        } else if code == 4 {
            Some(State::Playing)
        } else {
            None
        }
    }

    /// The engine's number for this state.
    #[verifier::when_used_as_spec(spec_code)]
    pub fn code(&self) -> (c: u32)
        ensures
            c == self.spec_code(),
    {
        match *self {
            State::VoidPending => 0,
            State::Null => 1,
            State::Ready => 2,
            State::Paused => 3,
            State::Playing => 4,
        }
    }

    /// Reads a state number that the engine handed back.
    pub fn from_code(code: u32) -> (r: Option<State>)
        ensures
            r == State::decoded(code),
    {
        if code == 0 {
            Some(State::VoidPending)
        } else if code == 1 {
            Some(State::Null)
        } else if code == 2 {
            Some(State::Ready)
        } else if code == 3 {
            Some(State::Paused)
        } else if code == 4 {
            Some(State::Playing)
        } else {
            None
        }
    }

    /// Reading a number gives the one state with that number, and numbers
    /// that no state has give nothing.
    pub proof fn lemma_codes(s: State, code: u32)
        ensures
            State::decoded(s.spec_code()) == Some(s),
            State::decoded(code) == Some(s) <==> s.spec_code() == code,
            State::decoded(code) is None <==> code > 4,
    {
    }
}

/// How the engine answered a request for a state change.
#[derive(Clone, Copy, Debug, PartialEq, Eq, Structural)]
pub enum StateChangeReturn {
    /// The change was rejected.
    Failure,
    /// The change is complete.
    Success,
    /// The change goes on in the engine's own thread.
    Async,
    /// The change is complete, but the element gives no data before it plays.
    NoPreroll,
}

impl StateChangeReturn {
    /// The engine's number for this result.
    pub open spec fn spec_code(&self) -> u32 {
        match *self {
            StateChangeReturn::Failure => 0,
            StateChangeReturn::Success => 1,
            StateChangeReturn::Async => 2,
            StateChangeReturn::NoPreroll => 3,
        }
    }

    /// The result that the engine numbers `code`, if there is one.
    pub open spec fn decoded(code: u32) -> Option<StateChangeReturn> {
        if code == 0 {
            Some(StateChangeReturn::Failure)
        } else if code == 1 {
            Some(StateChangeReturn::Success)
        } else if code == 2 {
            Some(StateChangeReturn::Async)
        } else if code == 3 {
            Some(StateChangeReturn::NoPreroll)
        } else {
            None
        }
    }

    /// The engine's number for this result.
    #[verifier::when_used_as_spec(spec_code)]
    pub fn code(&self) -> (c: u32)
        ensures
            c == self.spec_code(),
    {
        match *self {
            StateChangeReturn::Failure => 0,
            StateChangeReturn::Success => 1,
            StateChangeReturn::Async => 2,
            StateChangeReturn::NoPreroll => 3,
        }
    }

    /// Reads a result number that the engine handed back.
    pub fn from_code(code: u32) -> (r: Option<StateChangeReturn>)
        ensures
            r == StateChangeReturn::decoded(code),
    {
        if code == 0 {
            Some(StateChangeReturn::Failure)
        } else if code == 1 {
            Some(StateChangeReturn::Success)
        } else if code == 2 {
            Some(StateChangeReturn::Async)
        } else if code == 3 {
            Some(StateChangeReturn::NoPreroll)
        } else {
            None
        }
    }

    /// Reading a number gives the one result with that number, and numbers
    /// that no result has give nothing.
    pub proof fn lemma_codes(r: StateChangeReturn, code: u32)
        ensures
            StateChangeReturn::decoded(r.spec_code()) == Some(r),
            StateChangeReturn::decoded(code) == Some(r) <==> r.spec_code() == code,
            StateChangeReturn::decoded(code) is None <==> code > 3,
    {
    }
}

/// The unit in which a position or a duration is counted.
#[derive(Clone, Copy, Debug, PartialEq, Eq, Structural)]
pub enum Format {
    Undefined,
    Default,
    Bytes,
    /// Nanoseconds.
    Time,
    Buffers,
    Percent,
}

impl Format {
    /// The engine's number for this unit.
    pub open spec fn spec_code(&self) -> u32 {
        match *self {
            Format::Undefined => 0,
            Format::Default => 1,
            Format::Bytes => 2,
            Format::Time => 3,
            Format::Buffers => 4,
            Format::Percent => 5,
        }
    }

    /// The engine's number for this unit.
    #[verifier::when_used_as_spec(spec_code)]
    pub fn code(&self) -> (c: u32)
        ensures
            c == self.spec_code(),
    {
        match *self {
            Format::Undefined => 0,
            Format::Default => 1,
            Format::Bytes => 2,
            Format::Time => 3,
            Format::Buffers => 4,
            Format::Percent => 5,
        }
    }
}

/// How one end of a seek segment is to be read.
#[derive(Clone, Copy, Debug, PartialEq, Eq, Structural)]
pub enum SeekType {
    /// Leave this end where it is.
    Keep,
    /// An absolute position, counted from the start of the stream.
    Absolute,
    /// A position counted from the end of the stream.
    FromEnd,
}

impl SeekType {
    /// The engine's number for this kind of position.
    pub open spec fn spec_code(&self) -> u32 {
        match *self {
            SeekType::Keep => 0,
            SeekType::Absolute => 1,
            SeekType::FromEnd => 2,
        }
    }

    /// The engine's number for this kind of position.
    #[verifier::when_used_as_spec(spec_code)]
    pub fn code(&self) -> (c: u32)
        ensures
            c == self.spec_code(),
    {
        match *self {
            SeekType::Keep => 0,
            SeekType::Absolute => 1,
            SeekType::FromEnd => 2,
        }
    }
}

/// Seek option: discard what is queued in the pipeline.
pub const SEEK_FLAG_FLUSH: u32 = 1;

/// Seek option: land on the exact position, however long that takes.
pub const SEEK_FLAG_ACCURATE: u32 = 2;

/// Seek option: land on the nearest key unit.
pub const SEEK_FLAG_KEY_UNIT: u32 = 4;

/// Seek option: play the segment only, and report when it is done.
pub const SEEK_FLAG_SEGMENT: u32 = 8;

/// Seek option: at rates other than one, the engine may skip data.
pub const SEEK_FLAG_SKIP: u32 = 16;

/// A set of seek options, one bit each.
#[derive(Clone, Copy, Debug, PartialEq, Eq, Structural)]
pub struct SeekFlags {
    pub bits: u32,
}

impl SeekFlags {
    /// Whether every option of `other` is in this set.
    pub open spec fn spec_contains(&self, other: SeekFlags) -> bool {
        self.bits & other.bits == other.bits
    }

    /// The options that are in this set or in `other`.
    pub open spec fn spec_with(self, other: SeekFlags) -> SeekFlags {
        SeekFlags { bits: self.bits | other.bits }
    }

    /// The set whose options are the bits of `bits`.
    pub fn from_bits(bits: u32) -> (f: SeekFlags)
        ensures
            f.bits == bits,
    {
        SeekFlags { bits }
    }

    /// The options that are in this set or in `other`.
    #[verifier::when_used_as_spec(spec_with)]
    pub fn with(self, other: SeekFlags) -> (f: SeekFlags)
        ensures
            f == self.spec_with(other),
            f.spec_contains(self),
            f.spec_contains(other),
    {
        let a: u32 = self.bits;
        let b: u32 = other.bits;
        assert((a | b) & a == a && (a | b) & b == b) by (bit_vector);
        SeekFlags { bits: a | b }
    }

    /// Whether every option of `other` is in this set.
    #[verifier::when_used_as_spec(spec_contains)]
    pub fn contains(&self, other: SeekFlags) -> (b: bool)
        ensures
            b == self.spec_contains(other),
    {
        self.bits & other.bits == other.bits
    }
}

} // verus!

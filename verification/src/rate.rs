//! Playback rates, held as the bits of a double-precision number.
//!
//! The core never computes with a rate. It only has to tell a rate of zero
//! from a forward rate and from every other rate, and to hand the rate on to
//! the engine unchanged. Both are done on the sixty-four bits of the number:
//! one sign bit, eleven exponent bits, fifty-two fraction bits.

use vstd::prelude::*;

verus! {

/// The bits of positive infinity: sign clear, exponent all ones, fraction
/// zero. Every larger pattern with a clear sign is not a number.
pub const RATE_INFINITY_BITS: u64 = 0x7ff0_0000_0000_0000;

/// The sign bit alone: the bits of negative zero.
pub const RATE_SIGN_BIT: u64 = 0x8000_0000_0000_0000;

/// Which way a rate asks playback to go.
#[derive(Clone, Copy, Debug, PartialEq, Eq, Structural)]
pub enum Direction {
    /// The rate is zero: playback stands still.
    Still,
    /// The rate is greater than zero.
    Forward,
    /// Every other rate: below zero, or not a number.
    Reverse,
}

/// A playback rate.
#[derive(Clone, Copy, Debug, PartialEq, Eq, Structural)]
pub struct Rate {
    pub bits: u64,
}

impl Rate {
    /// The rate compares equal to zero: positive or negative zero.
    pub open spec fn is_zero(&self) -> bool {
        self.bits == 0 || self.bits == RATE_SIGN_BIT
    }

    /// The rate is not a number: exponent all ones and a fraction that is
    /// not zero, whatever the sign.
    pub open spec fn is_nan(&self) -> bool {
        ||| RATE_INFINITY_BITS < self.bits < RATE_SIGN_BIT
        ||| RATE_SIGN_BIT + RATE_INFINITY_BITS < self.bits
    }

    /// The rate compares greater than zero: sign clear, not zero, and a
    /// number (positive infinity counts).
    pub open spec fn is_forward(&self) -> bool {
        0 < self.bits <= RATE_INFINITY_BITS
    }

    /// The rate compares less than zero: sign set, not zero, and a number.
    pub open spec fn is_backward(&self) -> bool {
        RATE_SIGN_BIT < self.bits <= RATE_SIGN_BIT + RATE_INFINITY_BITS
    }

    /// Which way this rate asks playback to go.
    pub open spec fn spec_direction(&self) -> Direction {
        if self.is_zero() {
            Direction::Still
        } else if self.is_forward() {
            Direction::Forward
        } else {
            Direction::Reverse
        }
    }

    /// The rate with these bits.
    pub fn from_bits(bits: u64) -> (r: Rate)
        ensures
            r.bits == bits,
    {
        Rate { bits }
    }

    /// The bits of this rate, unchanged.
    pub fn to_bits(&self) -> (b: u64)
        ensures
            b == self.bits,
    {
        self.bits
    }

    /// Which way this rate asks playback to go.
    #[verifier::when_used_as_spec(spec_direction)]
    pub fn direction(&self) -> (d: Direction)
        ensures
            d == self.spec_direction(),
    {
        if self.bits == 0 || self.bits == RATE_SIGN_BIT {
            Direction::Still
        } else if self.bits <= RATE_INFINITY_BITS {
            Direction::Forward
        } else {
            Direction::Reverse
        }
    }

    /// Every rate is exactly one of: zero, forward, backward, not a number.
    /// Only the last two go in reverse.
    pub proof fn lemma_classes(r: Rate)
        ensures
            r.is_zero() || r.is_forward() || r.is_backward() || r.is_nan(),
            !(r.is_zero() && r.is_forward()),
            !(r.is_zero() && r.is_backward()),
            !(r.is_zero() && r.is_nan()),
            !(r.is_forward() && r.is_backward()),
            !(r.is_forward() && r.is_nan()),
            !(r.is_backward() && r.is_nan()),
            r.spec_direction() is Reverse <==> r.is_backward() || r.is_nan(),
    {
    }

    /// The classes read the fields of the number: the sign is the top bit,
    /// zero has every other bit clear, and a pattern is not a number when
    /// its exponent bits are all set and its fraction is not zero.
    pub proof fn lemma_fields(r: Rate)
        ensures
            r.is_zero() <==> r.bits & 0x7fff_ffff_ffff_ffff == 0,
            r.is_nan() <==> (r.bits & 0x7ff0_0000_0000_0000 == 0x7ff0_0000_0000_0000 && r.bits
                & 0x000f_ffff_ffff_ffff != 0),
            r.is_forward() <==> (r.bits & 0x8000_0000_0000_0000 == 0 && !r.is_zero()
                && !r.is_nan()),
            r.is_backward() <==> (r.bits & 0x8000_0000_0000_0000 != 0 && !r.is_zero()
                && !r.is_nan()),
    {
        let b: u64 = r.bits;
        assert((b == 0 || b == 0x8000_0000_0000_0000) <==> b & 0x7fff_ffff_ffff_ffff == 0)
            by (bit_vector);
        assert(((0x7ff0_0000_0000_0000 < b && b < 0x8000_0000_0000_0000) || 0xfff0_0000_0000_0000
            < b) <==> (b & 0x7ff0_0000_0000_0000 == 0x7ff0_0000_0000_0000 && b
            & 0x000f_ffff_ffff_ffff != 0)) by (bit_vector);
        assert(b & 0x8000_0000_0000_0000 == 0 <==> b < 0x8000_0000_0000_0000) by (bit_vector);
    }
}

} // verus!

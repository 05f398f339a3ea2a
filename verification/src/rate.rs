//! The share of requests whose traces are kept, as a number between 0 and 1.

use vstd::prelude::*;

verus! {

/// The bit pattern of positive infinity in IEEE 754 single precision. The
/// patterns from 1 up to this one are the numbers greater than zero.
pub const POSITIVE_INFINITY_BITS: u32 = 0x7F80_0000;

/// A sampling rate, held as the bit pattern of an IEEE 754 single-precision
/// number. The library only ever asks whether the rate is greater than zero.
#[derive(Clone, Copy, Debug, PartialEq, Eq, Structural)]
pub struct SampleRate {
    bits: u32,
}

impl SampleRate {
    /// The bit pattern of the rate.
    pub closed spec fn bits(self) -> u32 {
        self.bits
    }

    /// Whether the rate is greater than zero: its sign bit is clear, and it is
    /// neither zero nor a NaN.
    pub open spec fn is_positive(self) -> bool {
        0 < self.bits() <= POSITIVE_INFINITY_BITS
    }

    /// The rate with the given bit pattern.
    pub fn from_bits(bits: u32) -> (rate: SampleRate)
        ensures
            rate.bits() == bits,
    {
        SampleRate { bits }
    }

    /// The rate zero, at which no trace is kept.
    pub closed spec fn zero_rate() -> SampleRate {
        SampleRate { bits: 0 }
    }

    /// The rate zero has the bit pattern zero, and is not above zero.
    pub proof fn lemma_zero_rate()
        ensures
            Self::zero_rate().bits() == 0,
            !Self::zero_rate().is_positive(),
    {
    }

    /// The rate zero, at which no trace is kept.
    pub fn zero() -> (rate: SampleRate)
        ensures
            rate == Self::zero_rate(),
            rate.bits() == 0,
            !rate.is_positive(),
    {
        SampleRate { bits: 0 }
    }

    /// The bit pattern of the rate.
    pub fn to_bits(self) -> (bits: u32)
        ensures
            bits == self.bits(),
    {
        self.bits
    }

    /// Whether the rate is greater than zero.
    pub fn positive(self) -> (positive: bool)
        ensures
            positive == self.is_positive(),
    {
        0 < self.bits && self.bits <= POSITIVE_INFINITY_BITS
    }
}

} // verus!

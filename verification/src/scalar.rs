//! Real numbers as the host's graphics driver stores them.
//!
//! The rendering core never computes with real numbers: it only carries
//! them from the caller to the host that executes its commands. A `Scalar`
//! therefore holds the 32 bits of an IEEE-754 single-precision value, and
//! two scalars are equal exactly when those bits are.

use vstd::prelude::*;

verus! {

/// An IEEE-754 single-precision number, carried by its bit pattern.
#[derive(Clone, Copy, Debug, PartialEq, Eq, Structural)]
pub struct Scalar {
    pub bits: u32,
}

/// Bit pattern of `0.0`.
pub const ZERO_BITS: u32 = 0x0000_0000;

/// Bit pattern of `-100.0`.
pub const MINUS_ONE_HUNDRED_BITS: u32 = 0xC2C8_0000;

/// Bit pattern of `1.04`, rounded to the nearest single-precision value.
pub const ATMOSPHERE_SCALE_BITS: u32 = 0x3F85_1EB8;

impl Scalar {
    /// The scalar with the given bit pattern.
    pub fn from_bits(bits: u32) -> (s: Scalar)
        ensures
            s.bits == bits,
    {
        Scalar { bits }
    }

    /// The bit pattern of this scalar.
    pub fn to_bits(&self) -> (bits: u32)
        ensures
            bits == self.bits,
    {
        self.bits
    }
}

} // verus!

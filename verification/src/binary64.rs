//! Sampling parameters are IEEE 754 binary64 numbers. The library never
//! computes with them: it stores their bit patterns and answers the few
//! questions its rules ask of them, each of which is a fact about the bits.

use vstd::prelude::*;

verus! {

/// The bit below the sign bit and everything under it: exponent and fraction.
pub const MAGNITUDE_MODULUS: u64 = 0x8000_0000_0000_0000;

/// The magnitude of positive infinity; every larger magnitude is a NaN.
pub const INFINITY_MAGNITUDE: u64 = 0x7ff0_0000_0000_0000;

/// The bit pattern of the number one.
pub const ONE_BITS: u64 = 0x3ff0_0000_0000_0000;

/// A binary64 number, held by its bit pattern.
#[derive(Clone, Copy, Debug, PartialEq, Eq, Structural)]
pub struct Binary64 {
    pub bits: u64,
}

impl Binary64 {
    /// The pattern without its sign bit.
    pub open spec fn magnitude(self) -> int {
        self.bits as int % (MAGNITUDE_MODULUS as int)
    }

    /// Whether the sign bit is set.
    pub open spec fn sign_bit(self) -> bool {
        self.bits >= MAGNITUDE_MODULUS
    }

    /// Whether the pattern is one of the NaNs.
    pub open spec fn spec_is_nan(self) -> bool {
        self.magnitude() > INFINITY_MAGNITUDE as int
    }

    /// Whether the number compares less than or equal to zero: it is no NaN,
    /// and it is negative or one of the two zeros.
    pub open spec fn spec_at_most_zero(self) -> bool {
        !self.spec_is_nan() && (self.sign_bit() || self.magnitude() == 0)
    }

    /// Whether the number compares equal to one. One has a single bit pattern.
    pub open spec fn spec_is_one(self) -> bool {
        self.bits == ONE_BITS
    }

    /// The number with the given bit pattern.
    pub fn from_bits(bits: u64) -> (r: Binary64)
        ensures
            r.bits == bits,
    {
        Binary64 { bits }
    }

    /// The number zero, with a clear sign bit.
    pub fn zero() -> (r: Binary64)
        ensures
            r.bits == 0,
            r.spec_at_most_zero(),
    {
        Binary64 { bits: 0 }
    }

    /// The number one.
    pub fn one() -> (r: Binary64)
        ensures
            r.bits == ONE_BITS,
            r.spec_is_one(),
    {
        Binary64 { bits: ONE_BITS }
    }

    /// The bit pattern of the number.
    pub fn to_bits(self) -> (bits: u64)
        ensures
            bits == self.bits,
    {
        self.bits
    }

    /// Whether the pattern is one of the NaNs.
    pub fn is_nan(self) -> (r: bool)
        ensures
            r == self.spec_is_nan(),
    {
        self.bits % MAGNITUDE_MODULUS > INFINITY_MAGNITUDE
    }

    /// Whether the number compares less than or equal to zero.
    pub fn at_most_zero(self) -> (r: bool)
        ensures
            r == self.spec_at_most_zero(),
    {
        !self.is_nan() && (self.bits >= MAGNITUDE_MODULUS || self.bits % MAGNITUDE_MODULUS == 0)
    }

    /// Whether the number compares equal to one.
    pub fn is_one(self) -> (r: bool)
        ensures
            r == self.spec_is_one(),
    {
        self.bits == ONE_BITS
    }
}

} // verus!

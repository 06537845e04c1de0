//! Single-precision values as bit patterns.

use vstd::prelude::*;

verus! {

/// Bit pattern of `0.0`.
pub const ZERO_BITS: u32 = 0x0000_0000;

/// Bit pattern of `0.5`.
pub const HALF_BITS: u32 = 0x3f00_0000;

/// Bit pattern of `1.0`.
pub const ONE_BITS: u32 = 0x3f80_0000;

/// Bit pattern of `-1.0`.
pub const MINUS_ONE_BITS: u32 = 0xbf80_0000;

/// A single-precision number, carried by its IEEE 754 bit pattern.
///
/// The library stores, copies and lays out such numbers; it never does
/// arithmetic on them.
#[derive(Clone, Copy, Debug, PartialEq, Eq, Structural)]
pub struct Scalar {
    pub bits: u32,
}

impl Scalar {
    /// The number with the given bit pattern.
    pub fn from_bits(bits: u32) -> (s: Scalar)
        ensures
            s.bits == bits,
    {
        Scalar { bits }
    }

    /// `0.0`
    pub fn zero() -> (s: Scalar)
        ensures
            s.bits == ZERO_BITS,
    {
        Scalar { bits: ZERO_BITS }
    }

    /// `0.5`
    pub fn half() -> (s: Scalar)
        ensures
            s.bits == HALF_BITS,
    {
        Scalar { bits: HALF_BITS }
    }

    /// `1.0`
    pub fn one() -> (s: Scalar)
        ensures
            s.bits == ONE_BITS,
    {
        Scalar { bits: ONE_BITS }
    }

    /// `-1.0`
    pub fn minus_one() -> (s: Scalar)
        ensures
            s.bits == MINUS_ONE_BITS,
    {
        Scalar { bits: MINUS_ONE_BITS }
    }
}

/// A colour: red, green and blue, each nominally between `0.0` and `1.0`.
#[derive(Clone, Copy, Debug, PartialEq, Eq, Structural)]
pub struct Rgb {
    pub r: Scalar,
    pub g: Scalar,
    pub b: Scalar,
}

impl Rgb {
    /// The grey whose three channels are all `level`.
    pub open spec fn grey_of(level: u32) -> Rgb {
        Rgb { r: Scalar { bits: level }, g: Scalar { bits: level }, b: Scalar { bits: level } }
    }

    /// The grey whose three channels are all `level`.
    pub fn grey(level: Scalar) -> (c: Rgb)
        ensures
            c == Rgb::grey_of(level.bits),
    {
        Rgb { r: level, g: level, b: level }
    }
}

} // verus!

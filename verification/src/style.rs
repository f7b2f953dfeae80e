//! Plain values for what a widget paints with.

use vstd::prelude::*;

verus! {

/// A colour as four 8-bit channels, alpha last and not premultiplied.
#[derive(Clone, Copy, PartialEq, Eq, Structural, Debug)]
pub struct Color {
    pub r: u8,
    pub g: u8,
    pub b: u8,
    pub a: u8,
}

impl Color {
    /// The colour with the given red, green, blue and alpha channels.
    pub fn from_rgba8(r: u8, g: u8, b: u8, a: u8) -> (color: Color)
        ensures
            color == (Color { r, g, b, a }),
    {
        Color { r, g, b, a }
    }

    /// Whether anything of the colour shows: its alpha is not zero.
    pub open spec fn is_visible(self) -> bool {
        self.a > 0
    }

    /// Whether anything of the colour shows: its alpha is not zero.
    #[verifier::when_used_as_spec(is_visible)]
    pub fn visible(self) -> (r: bool)
        ensures
            r == self.is_visible(),
    {
        self.a > 0
    }
}

/// The largest bit pattern of a positive binary64 number: positive infinity.
pub const POSITIVE_INFINITY_BITS: u64 = 0x7ff0_0000_0000_0000;

/// A length in logical pixels, held as the bit pattern of the binary64
/// number that the application gave.
///
/// Two lengths are the same value when their patterns are equal: so `0.0` and
/// `-0.0` differ, and a NaN equals itself.
#[derive(Clone, Copy, PartialEq, Eq, Structural, Debug)]
pub struct Length {
    pub bits: u64,
}

impl Length {
    /// The length with the given bit pattern.
    pub fn from_bits(bits: u64) -> (length: Length)
        ensures
            length == (Length { bits }),
    {
        Length { bits }
    }

    /// The bit pattern of the length.
    pub fn to_bits(self) -> (bits: u64)
        ensures
            bits == self.bits,
    {
        self.bits
    }

    /// Whether the number is greater than zero: its sign bit is clear, it is
    /// not zero and it is not a NaN. Positive infinity is positive.
    pub open spec fn is_positive(self) -> bool {
        0 < self.bits <= POSITIVE_INFINITY_BITS
    }

    /// Whether the number is greater than zero.
    #[verifier::when_used_as_spec(is_positive)]
    pub fn positive(self) -> (r: bool)
        ensures
            r == self.is_positive(),
    {
        0 < self.bits && self.bits <= POSITIVE_INFINITY_BITS
    }
}

} // verus!

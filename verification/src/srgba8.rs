//! The [`Srgba8`] colour type.

use vstd::prelude::*;
use crate::hex;

verus! {

/// An sRGBA colour with four 8-bit channels.
///
/// This type stores its four channels -- red, green, blue, and alpha -- one
/// after the other (in this order), with the colour channels gamma-encoded
/// as by the sRGB transfer function and the alpha channel linear.
#[derive(Clone, Copy, Debug, Default, Eq, Hash, Ord, PartialEq, PartialOrd)]
pub struct Srgba8 {
    /// The red channel.
    pub red: u8,
    /// The green channel.
    pub green: u8,
    /// The blue channel.
    pub blue: u8,
    /// The alpha channel.
    pub alpha: u8,
}

/// The sRGBA colour whose channels are the big-endian bytes of `value`,
/// from red in the most significant byte to alpha in the least significant
/// one.
pub open spec fn srgba8_of_u32(value: u32) -> Srgba8 {
    Srgba8 {
        red: hex::be_byte(value, 0),
        green: hex::be_byte(value, 1),
        blue: hex::be_byte(value, 2),
        alpha: hex::be_byte(value, 3),
    }
}

/// The packed code of an sRGBA colour, red first.
pub open spec fn u32_of_srgba8(colour: Srgba8) -> u32 {
    hex::pack(colour.red, colour.green, colour.blue, colour.alpha)
}

impl Srgba8 {
    /// Constructs a new sRGBA colour.
    pub fn new(red: u8, green: u8, blue: u8, alpha: u8) -> (r: Self)
        ensures
            r == (Srgba8 { red, green, blue, alpha }),
    {
        Self { red, green, blue, alpha }
    }

    /// Constructs a new sRGBA colour from [`u32`].
    ///
    /// The `u32` value is split into four contiguous bytes corresponding to
    /// each of the four channels, red first.
    pub fn from_u32(value: u32) -> (r: Self)
        ensures
            r == srgba8_of_u32(value),
    {
        let (red, green, blue, alpha) = hex::u32_to_be(value);
        Self { red, green, blue, alpha }
    }

    /// Deconstructs an sRGBA colour.
    pub fn get(self) -> (r: (u8, u8, u8, u8))
        ensures
            r == (self.red, self.green, self.blue, self.alpha),
    {
        (self.red, self.green, self.blue, self.alpha)
    }

    /// Converts an sRGBA colour to [`u32`].
    ///
    /// This function is the inverse of [`from_u32`](Self::from_u32) (see
    /// there for more information).
    pub fn into_u32(self) -> (r: u32)
        ensures
            r == u32_of_srgba8(self),
    {
        hex::u32_from_be(self.red, self.green, self.blue, self.alpha)
    }

    /// Renders the sRGBA colour as a hexadecimal colour code.
    ///
    /// The code is always zero-padded, always uppercase, always prefixed
    /// with `#`, and always includes the alpha byte, regardless of whether
    /// the alpha is `0xFF`.
    pub fn to_string(&self) -> (r: String)
        ensures
            r@ == hex::hex_format_chars(u32_of_srgba8(*self)),
    {
        hex::hex_colour_string(self.into_u32())
    }
}

/// Packing an sRGBA colour into a [`u32`] and unpacking it again is the
/// identity, and so is unpacking followed by packing.
pub proof fn lemma_srgba8_u32_round_trip(value: u32, colour: Srgba8)
    ensures
        u32_of_srgba8(srgba8_of_u32(value)) == value,
        srgba8_of_u32(u32_of_srgba8(colour)) == colour,
{
    hex::lemma_pack_unpack(value);
    hex::lemma_unpack_pack(colour.red, colour.green, colour.blue, colour.alpha);
}

} // verus!

//! The [`Rgba`] colour type.

use vstd::prelude::*;
use vstd::slice::slice_index_get;
use vstd::string::StringSliceAdditionalSpecFns;
use crate::colour::Colour;
use crate::component::Component;
use crate::error::RgbaU8FromStrError;
use crate::hex;
use crate::rgb::Rgb;

verus! {

/// An RGBA colour.
///
/// This type stores its four channels -- red, green, blue, and alpha -- one
/// after the other (in this order).
///
/// Unlike other colours such as [`OpRgba`](crate::rgb::OpRgba), this one
/// does not define a gamut *per se*; instead, users of this type are to
/// interpret it on their own.
#[derive(Clone, Copy, Debug, Default, Eq, Ord, PartialEq, PartialOrd)]
pub struct Rgba<T: Component> {
    /// The red channel.
    pub red: T,
    /// The green channel.
    pub green: T,
    /// The blue channel.
    pub blue: T,
    /// The alpha channel.
    pub alpha: T,
}

impl<T: Component> Rgba<T> {
    /// Constructs a new RGBA colour.
    pub fn new(red: T, green: T, blue: T, alpha: T) -> (r: Self)
        ensures
            r == (Rgba { red, green, blue, alpha }),
    {
        Self { red, green, blue, alpha }
    }

    /// Discards the RGBA colour's alpha channel.
    pub fn discard_alpha(self) -> (r: Rgb<T>)
        ensures
            r == (Rgb { red: self.red, green: self.green, blue: self.blue }),
    {
        Rgb::new(self.red, self.green, self.blue)
    }

    /// Deconstructs an RGBA colour.
    pub fn get(self) -> (r: (T, T, T, T))
        ensures
            r == (self.red, self.green, self.blue, self.alpha),
    {
        (self.red, self.green, self.blue, self.alpha)
    }
}

impl<T: Component> Colour for Rgba<T> {

}

/// The RGBA colour whose channels are the big-endian bytes of `value`, from
/// red in the most significant byte to alpha in the least significant one.
pub open spec fn rgba8_of_u32(value: u32) -> Rgba<u8> {
    Rgba {
        red: hex::be_byte(value, 0),
        green: hex::be_byte(value, 1),
        blue: hex::be_byte(value, 2),
        alpha: hex::be_byte(value, 3),
    }
}

/// The packed code of an 8-bit RGBA colour, red first.
pub open spec fn u32_of_rgba8(colour: Rgba<u8>) -> u32 {
    hex::pack(colour.red, colour.green, colour.blue, colour.alpha)
}

/// The result of parsing the byte string `b` as an 8-bit RGBA colour code.
///
/// A code must begin with a hash `#`; one without is rejected outright. The
/// hexadecimal payload is then selected by the exact length of the code: the
/// lengths 4, 7, and 9 are recognised, as described by [`hex::hex_groups`],
/// and any other length is rejected, carrying the offending length. A code
/// of a recognised length whose payload holds a byte that is no hexadecimal
/// digit is rejected as being of an unknown format.
pub open spec fn rgba8_parse(b: Seq<u8>) -> Result<Rgba<u8>, RgbaU8FromStrError> {
    if b.len() == 0 || b[0] != 0x23 {
        Err(RgbaU8FromStrError::MissingHash)
    } else if b.len() == 4 || b.len() == 7 || b.len() == 9 {
        match hex::hex_groups(b) {
            Some(ch) => Ok(Rgba { red: ch.0, green: ch.1, blue: ch.2, alpha: ch.3 }),
            None => Err(RgbaU8FromStrError::UnknownFormat),
        }
    } else {
        Err(RgbaU8FromStrError::InvalidLength(b.len() as usize))
    }
}

impl Rgba<u8> {
    /// Constructs a new RGBA colour from [`u32`].
    ///
    /// The `u32` value is split into four contiguous bytes corresponding to
    /// each of the four channels, red first.
    pub fn from_u32(value: u32) -> (r: Self)
        ensures
            r == rgba8_of_u32(value),
    {
        let (red, green, blue, alpha) = hex::u32_to_be(value);
        Self { red, green, blue, alpha }
    }

    /// Converts an RGBA colour to [`u32`].
    ///
    /// This function is the inverse of [`from_u32`](Self::from_u32) (see
    /// there for more information).
    pub fn to_u32(self) -> (r: u32)
        ensures
            r == u32_of_rgba8(self),
    {
        hex::u32_from_be(self.red, self.green, self.blue, self.alpha)
    }

    /// Parses an RGBA colour from a hexadecimal colour code.
    ///
    /// The accepted formats are the three-, six-, and eight-digit
    /// case-insensitive hexadecimal codes, e.g. `#639`, `#663399`, and
    /// `#663399Ff`; see [`rgba8_parse`] for the exact treatment.
    pub fn from_str(s: &str) -> (r: Result<Self, RgbaU8FromStrError>)
        ensures
            r == rgba8_parse(s.spec_bytes()),
    {
        let b = s.as_bytes();
        if b.len() == 0 || *slice_index_get(b, 0) != 0x23 {
            return Err(RgbaU8FromStrError::MissingHash);
        }
        let n = b.len();
        if n == 4 || n == 7 || n == 9 {
            match hex::parse_hex_groups(b) {
                Some((red, green, blue, alpha)) => Ok(Self::new(red, green, blue, alpha)),
                None => Err(RgbaU8FromStrError::UnknownFormat),
            }
        } else {
            Err(RgbaU8FromStrError::InvalidLength(n))
        }
    }
}

impl Rgba<u8> {
    /// Renders the RGBA colour as a hexadecimal colour code.
    ///
    /// The code is always zero-padded, always uppercase, always prefixed
    /// with `#`, and always includes the alpha byte, regardless of whether
    /// the alpha is `0xFF`.
    pub fn to_string(&self) -> (r: String)
        ensures
            r@ == hex::hex_format_chars(u32_of_rgba8(*self)),
    {
        hex::hex_colour_string(self.to_u32())
    }
}

/// Formatting an 8-bit RGBA colour as its hexadecimal code and parsing that
/// code back yields the colour again.
pub proof fn lemma_rgba8_format_parse_round_trip(colour: Rgba<u8>)
    ensures
        rgba8_parse(vstd::utf8::encode_utf8(hex::hex_format_chars(u32_of_rgba8(colour))))
            == Ok::<Rgba<u8>, RgbaU8FromStrError>(colour),
{
    let value = u32_of_rgba8(colour);
    hex::lemma_format_parse(value);
    hex::lemma_unpack_pack(colour.red, colour.green, colour.blue, colour.alpha);
}

/// Packing an 8-bit RGBA colour into a [`u32`] and unpacking it again is the
/// identity, and so is unpacking followed by packing.
pub proof fn lemma_rgba8_u32_round_trip(value: u32, colour: Rgba<u8>)
    ensures
        u32_of_rgba8(rgba8_of_u32(value)) == value,
        rgba8_of_u32(u32_of_rgba8(colour)) == colour,
{
    hex::lemma_pack_unpack(value);
    hex::lemma_unpack_pack(colour.red, colour.green, colour.blue, colour.alpha);
}

} // verus!

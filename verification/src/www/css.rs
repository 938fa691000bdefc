//! The [`Css`] colour type.

use vstd::prelude::*;
use vstd::slice::slice_index_get;
use vstd::string::StringSliceAdditionalSpecFns;
use crate::colour::Colour;
use crate::error::CssFromStrError;
use crate::hex;
use crate::rgba::Rgba;
use crate::rgba::rgba8_of_u32;
use crate::rgba::u32_of_rgba8;
use crate::www::named;

verus! {

/// A CSS colour.
///
/// This type has the exact same channel structure as
/// <code>[Rgba]&lt;[u8]&gt;</code> in permanent sRGB, and -- for all intents
/// and purposes -- these types are also equivalent.
///
/// Where this type differs is in that it may be more suited for user
/// interactions due to its parsing and formatting facilities.
#[derive(Clone, Copy, Debug, Default, Eq, Ord, PartialEq, PartialOrd)]
pub struct Css(pub Rgba<u8>);

/// The CSS colour whose channels are the big-endian bytes of `value`, red
/// first.
pub open spec fn css_of_u32(value: u32) -> Css {
    Css(rgba8_of_u32(value))
}

/// The packed code of a CSS colour, red first.
pub open spec fn u32_of_css(colour: Css) -> u32 {
    u32_of_rgba8(colour.0)
}

/// The result of parsing the string with byte form `b` as a CSS colour.
///
/// A string that begins with a hash `#` is read as a hexadecimal colour
/// code of length 4, 7, or 9, as described by [`hex::hex_groups`]; a code
/// of another length, or one holding a byte that is no hexadecimal digit,
/// is of an unknown format. Any other string must be a name from the table
/// of named colours, and one that is not is missing the hash.
pub open spec fn css_parse(b: Seq<u8>) -> Result<Css, CssFromStrError> {
    if b.len() > 0 && b[0] == 0x23 {
        if b.len() == 4 || b.len() == 7 || b.len() == 9 {
            match hex::hex_groups(b) {
                Some(ch) => Ok(Css(Rgba { red: ch.0, green: ch.1, blue: ch.2, alpha: ch.3 })),
                None => Err(CssFromStrError::UnknownFormat),
            }
        } else {
            Err(CssFromStrError::UnknownFormat)
        }
    } else {
        match named::named_colour_spec(b) {
            Some(value) => Ok(css_of_u32(value)),
            None => Err(CssFromStrError::MissingHash),
        }
    }
}

impl Css {
    /// Constructs a new CSS colour.
    pub fn new(red: u8, green: u8, blue: u8, alpha: u8) -> (r: Self)
        ensures
            r == (Css(Rgba { red, green, blue, alpha })),
    {
        Self::from_rgba(Rgba::new(red, green, blue, alpha))
    }

    /// Constructs a new CSS colour from [`u32`].
    ///
    /// The `u32` value is split into four contiguous bytes corresponding to
    /// each of the four channels, red first.
    pub fn from_u32(value: u32) -> (r: Self)
        ensures
            r == css_of_u32(value),
    {
        Self(Rgba::from_u32(value))
    }

    /// Converts an RGBA colour into a CSS colour.
    ///
    /// This conversion is always lossless.
    pub fn from_rgba(colour: Rgba<u8>) -> (r: Self)
        ensures
            r == (Css(colour)),
    {
        Self(colour)
    }

    /// Deconstructs a CSS colour.
    pub fn get(self) -> (r: (u8, u8, u8, u8))
        ensures
            r == (self.0.red, self.0.green, self.0.blue, self.0.alpha),
    {
        self.to_rgba().get()
    }

    /// Converts a CSS colour to [`u32`].
    ///
    /// This function is the inverse of [`from_u32`](Self::from_u32) (see
    /// there for more information).
    pub fn to_u32(self) -> (r: u32)
        ensures
            r == u32_of_css(self),
    {
        self.0.to_u32()
    }

    /// Converts a CSS colour to <code>[Rgba]&lt;[u8]&gt;</code>.
    pub fn to_rgba(self) -> (r: Rgba<u8>)
        ensures
            r == self.0,
    {
        self.0
    }

    /// Parses a CSS colour from a string.
    ///
    /// The formats supported by this implementation are:
    ///
    /// * Three-, six-, and eight-digit case-insensitive hexadecimal codes,
    ///   e.g. `#639`, `#663399`, and `#663399Ff`
    /// * Named colours, e.g. `aliceblue`
    ///
    /// See [`css_parse`] for the exact treatment.
    pub fn from_str(s: &str) -> (r: Result<Self, CssFromStrError>)
        ensures
            r == css_parse(s.spec_bytes()),
    {
        let b = s.as_bytes();
        if b.len() > 0 && *slice_index_get(b, 0) == 0x23 {
            let n = b.len();
            if n == 4 || n == 7 || n == 9 {
                match hex::parse_hex_groups(b) {
                    Some((red, green, blue, alpha)) => Ok(Self::new(red, green, blue, alpha)),
                    None => Err(CssFromStrError::UnknownFormat),
                }
            } else {
                Err(CssFromStrError::UnknownFormat)
            }
        } else {
            match named::named_colour(b) {
                Some(value) => Ok(Self::from_u32(value)),
                None => Err(CssFromStrError::MissingHash),
            }
        }
    }

    /// Renders the CSS colour as a hexadecimal colour code.
    ///
    /// The code is always zero-padded, always uppercase, always prefixed
    /// with `#`, and always includes the alpha byte, regardless of whether
    /// the alpha is `0xFF`.
    pub fn to_string(&self) -> (r: String)
        ensures
            r@ == hex::hex_format_chars(u32_of_css(*self)),
    {
        hex::hex_colour_string(self.to_u32())
    }
}

impl Colour for Css {

}

/// Formatting a CSS colour as its hexadecimal code and parsing that code
/// back yields the colour again.
pub proof fn lemma_css_format_parse_round_trip(colour: Css)
    ensures
        css_parse(vstd::utf8::encode_utf8(hex::hex_format_chars(u32_of_css(colour))))
            == Ok::<Css, CssFromStrError>(colour),
{
    let value = u32_of_css(colour);
    hex::lemma_format_parse(value);
    hex::lemma_unpack_pack(colour.0.red, colour.0.green, colour.0.blue, colour.0.alpha);
}

/// Packing a CSS colour into a [`u32`] and unpacking it again is the
/// identity, and so is unpacking followed by packing.
pub proof fn lemma_css_u32_round_trip(value: u32, colour: Css)
    ensures
        u32_of_css(css_of_u32(value)) == value,
        css_of_u32(u32_of_css(colour)) == colour,
{
    hex::lemma_pack_unpack(value);
    hex::lemma_unpack_pack(colour.0.red, colour.0.green, colour.0.blue, colour.0.alpha);
}

} // verus!

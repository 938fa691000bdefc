//! The [`Html`] colour type.

use vstd::prelude::*;
use vstd::slice::slice_index_get;
use vstd::string::StrSliceExecFns;
use vstd::string::StringSliceAdditionalSpecFns;
use crate::alpha::Alpha;
use crate::balanced_colour::BalancedColour;
use crate::colour::Colour;
use crate::defined_gamut::DefinedGamut;
use crate::error::HtmlFromStrError;
use crate::hex;
use crate::rgb::Rgb;
use crate::rgb::SRgb;
use crate::www::named;

verus! {

/// An HTML colour.
///
/// This type has the exact same channel structure as
/// <code>[Alpha]&lt;[SRgb]&lt;[u8]&gt;&gt;</code>, and -- for all intents
/// and purposes -- these types are also equivalent.
///
/// Where this type differs is in that it may be more suited for user
/// interactions due to its parsing and formatting facilities.
#[derive(Clone, Copy, Debug, Default, Eq, Ord, PartialEq, PartialOrd)]
pub struct Html(pub Alpha<SRgb<u8>>);

/// The result of calling [`char::is_alphanumeric`] on `c`.
pub uninterp spec fn char_is_alphanumeric(c: char) -> bool;

/// Relies on char::is_alphanumeric: whether a character is alphabetic or
/// numeric depends on the character alone, and on the ASCII range it means
/// exactly the letters and the decimal digits.
#[verifier::external_body]
fn is_alphanumeric(c: char) -> (r: bool)
    ensures
        r == char_is_alphanumeric(c),
        ('a' <= c <= 'z') || ('A' <= c <= 'Z') || ('0' <= c <= '9') ==> r,
        c <= '\u{7f}' && !(('a' <= c <= 'z') || ('A' <= c <= 'Z') || ('0' <= c <= '9')) ==> !r,
{
    c.is_alphanumeric()
}

/// The HTML colour whose channels are the big-endian bytes of `value`, red
/// first.
pub open spec fn html_of_u32(value: u32) -> Html {
    Html(
        Alpha {
            colour: SRgb(
                Rgb {
                    red: hex::be_byte(value, 0),
                    green: hex::be_byte(value, 1),
                    blue: hex::be_byte(value, 2),
                },
            ),
            alpha: hex::be_byte(value, 3),
        },
    )
}

/// The packed code of an HTML colour, red first.
pub open spec fn u32_of_html(colour: Html) -> u32 {
    hex::pack(colour.0.colour.0.red, colour.0.colour.0.green, colour.0.colour.0.blue,
        colour.0.alpha)
}

/// The result of parsing the string `s`, with character form `chars` and
/// byte form `b`, as an HTML colour.
///
/// A string that begins with a hash `#` is read as a hexadecimal colour
/// code of length 4, 5, 7, or 9, as described by [`hex::hex_groups`]; a
/// code of another length, or one holding a byte that is no hexadecimal
/// digit, is of an unknown format. A name from the table of named colours
/// denotes that colour. Any other string that begins with an alphanumeric
/// character is an unknown name, and the rest are missing the hash.
pub open spec fn html_parse(chars: Seq<char>, b: Seq<u8>) -> Result<Html, HtmlFromStrError> {
    if b.len() > 0 && b[0] == 0x23 {
        match hex::hex_groups(b) {
            Some(ch) => Ok(
                Html(
                    Alpha {
                        colour: SRgb(Rgb { red: ch.0, green: ch.1, blue: ch.2 }),
                        alpha: ch.3,
                    },
                ),
            ),
            None => Err(HtmlFromStrError::UnknownFormat),
        }
    } else {
        match named::named_colour_spec(b) {
            Some(value) => Ok(html_of_u32(value)),
            None => if chars.len() > 0 && char_is_alphanumeric(chars[0]) {
                Err(HtmlFromStrError::UnknownName)
            } else {
                Err(HtmlFromStrError::MissingHash)
            },
        }
    }
}

impl Html {
    /// Constructs a new HTML colour.
    pub fn new(red: u8, green: u8, blue: u8, alpha: u8) -> (r: Self)
        ensures
            r == (Html(Alpha { colour: SRgb(Rgb { red, green, blue }), alpha })),
    {
        let colour = SRgb::new(red, green, blue);
        let colour = Alpha::attach(colour, alpha);
        Self::from_s_rgba(colour)
    }

    /// Constructs a new HTML colour from [`u32`].
    ///
    /// The `u32` value is split into four contiguous bytes corresponding to
    /// each of the four channels, red first.
    pub fn from_u32(value: u32) -> (r: Self)
        ensures
            r == html_of_u32(value),
    {
        let (red, green, blue, alpha) = hex::u32_to_be(value);
        Self::new(red, green, blue, alpha)
    }

    /// Converts an sRGBA colour into an HTML colour.
    ///
    /// This conversion is always lossless.
    pub fn from_s_rgba(colour: Alpha<SRgb<u8>>) -> (r: Self)
        ensures
            r == (Html(colour)),
    {
        Self(colour)
    }

    /// Deconstructs an HTML colour.
    pub fn get(self) -> (r: (u8, u8, u8, u8))
        ensures
            r == (self.0.colour.0.red, self.0.colour.0.green, self.0.colour.0.blue,
            self.0.alpha),
    {
        let (colour, alpha) = self.to_s_rgba().detach();
        let (red, green, blue) = colour.get();
        (red, green, blue, alpha)
    }

    /// Converts an HTML colour to [`u32`].
    ///
    /// This function is the inverse of [`from_u32`](Self::from_u32) (see
    /// there for more information).
    pub fn to_u32(self) -> (r: u32)
        ensures
            r == u32_of_html(self),
    {
        let (red, green, blue, alpha) = self.get();
        hex::u32_from_be(red, green, blue, alpha)
    }

    /// Converts an HTML colour to <code>[Alpha]&lt;[SRgb]&lt;[u8]&gt;&gt;</code>.
    ///
    /// This conversion is always lossless.
    pub fn to_s_rgba(self) -> (r: Alpha<SRgb<u8>>)
        ensures
            r == self.0,
    {
        self.0
    }

    /// Parses an HTML colour from a string.
    ///
    /// The formats supported by this implementation are:
    ///
    /// * Three-, four-, six-, and eight-digit case-insensitive hexadecimal
    ///   codes, e.g. `#639`, `#639f`, `#663399`, and `#663399Ff`
    /// * Named colours (as per the CSS Color Module Level 4 specification),
    ///   e.g. `aliceblue`
    ///
    /// See [`html_parse`] for the exact treatment.
    pub fn from_str(s: &str) -> (r: Result<Self, HtmlFromStrError>)
        ensures
            r == html_parse(s@, s.spec_bytes()),
    {
        let b = s.as_bytes();
        if b.len() > 0 && *slice_index_get(b, 0) == 0x23 {
            match hex::parse_hex_groups(b) {
                Some((red, green, blue, alpha)) => Ok(Self::new(red, green, blue, alpha)),
                None => Err(HtmlFromStrError::UnknownFormat),
            }
        } else {
            match named::named_colour(b) {
                Some(value) => Ok(Self::from_u32(value)),
                None => {
                    let n = s.unicode_len();
                    if n > 0 && is_alphanumeric(s.get_char(0)) {
                        Err(HtmlFromStrError::UnknownName)
                    } else {
                        Err(HtmlFromStrError::MissingHash)
                    }
                },
            }
        }
    }

    /// Renders the HTML colour as a hexadecimal colour code.
    ///
    /// The code is always zero-padded, always uppercase, always prefixed
    /// with `#`, and always includes the alpha byte, regardless of whether
    /// the alpha is `0xFF`.
    pub fn to_string(&self) -> (r: String)
        ensures
            r@ == hex::hex_format_chars(u32_of_html(*self)),
    {
        hex::hex_colour_string(self.to_u32())
    }
}

impl Colour for Html {

}

impl BalancedColour for Html {
    type Component = u8;
}

impl DefinedGamut for Html {

}

/// Formatting an HTML colour as its hexadecimal code and parsing that code
/// back yields the colour again, whatever character form the code has.
pub proof fn lemma_html_format_parse_round_trip(colour: Html, chars: Seq<char>)
    ensures
        html_parse(chars, vstd::utf8::encode_utf8(hex::hex_format_chars(u32_of_html(colour))))
            == Ok::<Html, HtmlFromStrError>(colour),
{
    let value = u32_of_html(colour);
    hex::lemma_format_parse(value);
    hex::lemma_unpack_pack(colour.0.colour.0.red, colour.0.colour.0.green,
        colour.0.colour.0.blue, colour.0.alpha);
}

/// Packing an HTML colour into a [`u32`] and unpacking it again is the
/// identity, and so is unpacking followed by packing.
pub proof fn lemma_html_u32_round_trip(value: u32, colour: Html)
    ensures
        u32_of_html(html_of_u32(value)) == value,
        html_of_u32(u32_of_html(colour)) == colour,
{
    hex::lemma_pack_unpack(value);
    hex::lemma_unpack_pack(colour.0.colour.0.red, colour.0.colour.0.green,
        colour.0.colour.0.blue, colour.0.alpha);
}

} // verus!

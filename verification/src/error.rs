//! Error types for parsing colour codes.

use vstd::prelude::*;
use vstd::string::StringExecFns;
use crate::hex;

verus! {

/// The decimal digit characters of `n`, most significant first, without
/// leading zeroes (the value zero being the single digit `0`).
pub open spec fn dec_digits(n: nat) -> Seq<char>
    decreases n,
{
    if n < 10 {
        seq![hex::hex_upper(n as u8)]
    } else {
        dec_digits(n / 10) + seq![hex::hex_upper((n % 10) as u8)]
    }
}

/// Appends the decimal digits of `n` to `out`, as described by
/// [`dec_digits`].
fn append_decimal(out: &mut String, n: usize)
    ensures
        final(out)@ == old(out)@ + dec_digits(n as nat),
    decreases n,
{
    if n < 10 {
        hex::push_hex_digit(out, n as u8);
    } else {
        append_decimal(out, n / 10);
        hex::push_hex_digit(out, (n % 10) as u8);
        proof {
            assert(out@ =~= old(out)@ + dec_digits(n as nat));
        }
    }
}

/// A [CSS colour](crate::www::Css) could not be parsed.
#[derive(Clone, Copy, Debug, Eq, PartialEq)]
pub enum CssFromStrError {
    /// The CSS colour was missing a hash `#`.
    MissingHash,
    /// The CSS colour had an otherwise unknown format.
    UnknownFormat,
}

/// The message describing a CSS parse error.
pub open spec fn css_error_message(e: CssFromStrError) -> Seq<char> {
    match e {
        CssFromStrError::MissingHash => "css colour is missing prefixed hash `#`"@,
        CssFromStrError::UnknownFormat => "css colour is of an otherwise unknown format"@,
    }
}

impl CssFromStrError {
    /// Renders the error as its message, as described by
    /// [`css_error_message`].
    pub fn to_string(&self) -> (r: String)
        ensures
            r@ == css_error_message(*self),
    {
        match *self {
            Self::MissingHash => String::from_str("css colour is missing prefixed hash `#`"),
            Self::UnknownFormat => String::from_str(
                "css colour is of an otherwise unknown format",
            ),
        }
    }
}

/// An [HTML colour](crate::www::Html) could not be parsed.
#[derive(Clone, Copy, Debug, Eq, PartialEq)]
pub enum HtmlFromStrError {
    /// An HTML hexadecimal colour was missing a hash `#`.
    MissingHash,
    /// An HTML colour had an otherwise unknown format.
    UnknownFormat,
    /// An HTML named colour was unknown.
    UnknownName,
}

/// The message describing an HTML parse error.
pub open spec fn html_error_message(e: HtmlFromStrError) -> Seq<char> {
    match e {
        HtmlFromStrError::MissingHash => "html hexadecimal colour is missing prefixed hash `#`"@,
        HtmlFromStrError::UnknownFormat => "html colour is of an otherwise unknown format"@,
        HtmlFromStrError::UnknownName => "html named colour is unknown"@,
    }
}

impl HtmlFromStrError {
    /// Renders the error as its message, as described by
    /// [`html_error_message`].
    pub fn to_string(&self) -> (r: String)
        ensures
            r@ == html_error_message(*self),
    {
        match *self {
            Self::MissingHash => String::from_str(
                "html hexadecimal colour is missing prefixed hash `#`",
            ),
            Self::UnknownFormat => String::from_str(
                "html colour is of an otherwise unknown format",
            ),
            Self::UnknownName => String::from_str("html named colour is unknown"),
        }
    }
}

/// An RGBA colour code could not be parsed.
#[derive(Clone, Copy, Debug, Eq, PartialEq)]
pub enum RgbaU8FromStrError {
    /// The RGBA colour code had an invalid length.
    InvalidLength(usize),
    /// The RGBA colour code had no prefixed hash `#`.
    MissingHash,
    /// The RGBA colour code had an otherwise unknown format.
    ///
    /// This error is only emitted if neither of the two others is
    /// appropriate.
    UnknownFormat,
}

/// The message describing an RGBA colour code parse error.
pub open spec fn rgba_u8_error_message(e: RgbaU8FromStrError) -> Seq<char> {
    match e {
        RgbaU8FromStrError::InvalidLength(len) => "rgba code has length `"@ + dec_digits(
            len as nat,
        ) + "` but should have been neither `4` or `7` or `9` octets long"@,
        RgbaU8FromStrError::MissingHash => "rgba code is missing prefixed hash `#`"@,
        RgbaU8FromStrError::UnknownFormat => "rgba code is of an otherwise unknown format"@,
    }
}

impl RgbaU8FromStrError {
    /// Renders the error as its message, as described by
    /// [`rgba_u8_error_message`].
    pub fn to_string(&self) -> (r: String)
        ensures
            r@ == rgba_u8_error_message(*self),
    {
        match *self {
            Self::InvalidLength(len) => {
                let mut out = String::from_str("rgba code has length `");
                append_decimal(&mut out, len);
                out.append("` but should have been neither `4` or `7` or `9` octets long");
                proof {
                    assert(out@ =~= rgba_u8_error_message(*self));
                }
                out
            },
            Self::MissingHash => String::from_str("rgba code is missing prefixed hash `#`"),
            Self::UnknownFormat => String::from_str(
                "rgba code is of an otherwise unknown format",
            ),
        }
    }
}

} // verus!

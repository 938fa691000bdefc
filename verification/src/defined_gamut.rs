//! The [`DefinedGamut`] marking.

use vstd::prelude::*;
use crate::colour::Colour;

verus! {

/// Denotes a colour with a well-defined gamut.
///
/// More specifically, this trait denotes colours that have an "ideal"
/// representation: each well-defined value can, in theory, only be displayed
/// in one way. Examples include [`CieXyz`](crate::xyz::CieXyz) and
/// [`OpRgb`](crate::rgb::OpRgb).
///
/// Types such as [`Rgb`](crate::rgb::Rgb) do not implement this trait, as
/// their gamuts are unspecified.
pub trait DefinedGamut: Colour {

}

} // verus!

//! XYZ-based colour facilities.

use vstd::prelude::*;
use crate::colour::Colour;
use crate::component::Component;
use crate::defined_gamut::DefinedGamut;

verus! {

/// A CIEXYZ colour.
///
/// This type stores its three channels -- x, y, and z -- one after the
/// other (in this order).
#[derive(Clone, Copy, Debug, Default, Eq, Ord, PartialEq, PartialOrd)]
pub struct CieXyz<T: Component> {
    /// The x channel.
    pub x: T,
    /// The y channel.
    pub y: T,
    /// The z channel.
    pub z: T,
}

impl<T: Component> CieXyz<T> {
    /// Constructs a new CIEXYZ colour.
    pub fn new(x: T, y: T, z: T) -> (r: Self)
        ensures
            r == (CieXyz { x, y, z }),
    {
        Self { x, y, z }
    }

    /// Deconstructs a CIEXYZ colour.
    pub fn get(self) -> (r: (T, T, T))
        ensures
            r == (self.x, self.y, self.z),
    {
        (self.x, self.y, self.z)
    }
}

impl<T: Component> Colour for CieXyz<T> {

}

impl<T: Component> DefinedGamut for CieXyz<T> {

}

/// A CIEXYZA colour.
///
/// This type stores its four channels -- x, y, z, and alpha -- one after
/// the other (in this order).
///
/// This type is equivalent to [`CieXyz`] with an added alpha component.
#[derive(Clone, Copy, Debug, Default, Eq, Ord, PartialEq, PartialOrd)]
pub struct CieXyza<T: Component> {
    /// The x channel.
    pub x: T,
    /// The y channel.
    pub y: T,
    /// The z channel.
    pub z: T,
    /// The alpha channel.
    pub alpha: T,
}

impl<T: Component> CieXyza<T> {
    /// Constructs a new CIEXYZA colour.
    pub fn new(x: T, y: T, z: T, alpha: T) -> (r: Self)
        ensures
            r == (CieXyza { x, y, z, alpha }),
    {
        Self { x, y, z, alpha }
    }

    /// Discards the CIEXYZA colour's alpha channel.
    pub fn discard_alpha(self) -> (r: (CieXyz<T>, T))
        ensures
            r == ((CieXyz { x: self.x, y: self.y, z: self.z }), self.alpha),
    {
        let colour = CieXyz::new(self.x, self.y, self.z);
        (colour, self.alpha)
    }

    /// Deconstructs a CIEXYZA colour.
    pub fn get(self) -> (r: (T, T, T, T))
        ensures
            r == (self.x, self.y, self.z, self.alpha),
    {
        (self.x, self.y, self.z, self.alpha)
    }
}

impl<T: Component> Colour for CieXyza<T> {

}

impl<T: Component> DefinedGamut for CieXyza<T> {

}

} // verus!

//! LCh-based colour facilities.

use vstd::prelude::*;
use crate::balanced_colour::BalancedColour;
use crate::colour::Colour;
use crate::component::Component;
use crate::defined_gamut::DefinedGamut;

verus! {

/// A CIELCh colour.
///
/// This type stores its three channels -- luminance, chroma, and hue -- one
/// after the other (in this order).
#[derive(Clone, Copy, Debug, Default, Eq, Ord, PartialEq, PartialOrd)]
pub struct CieLch<T: Component> {
    /// The luminance channel.
    pub luminance: T,
    /// The chroma channel.
    pub chroma: T,
    /// The hue channel.
    pub hue: T,
}

impl<T: Component> CieLch<T> {
    /// Constructs a new CIELCh colour.
    pub fn new(luminance: T, chroma: T, hue: T) -> (r: Self)
        ensures
            r == (CieLch { luminance, chroma, hue }),
    {
        Self { luminance, chroma, hue }
    }

    /// Maps the CIELCh colour's channels.
    pub fn map<U, F>(self, op: F) -> (r: CieLch<U>) where
        U: Component,
        F: Fn(T) -> U,
        requires
            call_requires(op, (self.luminance,)),
            call_requires(op, (self.chroma,)),
            call_requires(op, (self.hue,)),
        ensures
            call_ensures(op, (self.luminance,), r.luminance),
            call_ensures(op, (self.chroma,), r.chroma),
            call_ensures(op, (self.hue,), r.hue),
    {
        let luminance = op(self.luminance);
        let chroma = op(self.chroma);
        let hue = op(self.hue);
        CieLch { luminance, chroma, hue }
    }

    /// Deconstructs the CIELCh colour.
    pub fn get(self) -> (r: (T, T, T))
        ensures
            r == (self.luminance, self.chroma, self.hue),
    {
        (self.luminance, self.chroma, self.hue)
    }
}

impl<T: Component> Colour for CieLch<T> {

}

impl<T: Component> BalancedColour for CieLch<T> {
    type Component = T;
}

impl<T: Component> DefinedGamut for CieLch<T> {

}

/// A CIELChA colour.
///
/// This type stores its four channels -- luminance, chroma, hue, and alpha
/// -- one after the other (in this order).
///
/// This type is equivalent to [`CieLch`] with an added alpha component.
#[derive(Clone, Copy, Debug, Default, Eq, Ord, PartialEq, PartialOrd)]
pub struct CieLcha<T: Component> {
    /// The luminance channel.
    pub luminance: T,
    /// The chroma channel.
    pub chroma: T,
    /// The hue channel.
    pub hue: T,
    /// The alpha channel.
    pub alpha: T,
}

impl<T: Component> CieLcha<T> {
    /// Constructs a new CIELChA colour.
    pub fn new(luminance: T, chroma: T, hue: T, alpha: T) -> (r: Self)
        ensures
            r == (CieLcha { luminance, chroma, hue, alpha }),
    {
        Self { luminance, chroma, hue, alpha }
    }

    /// Discards the CIELChA colour's alpha channel.
    pub fn discard_alpha(self) -> (r: CieLch<T>)
        ensures
            r == (CieLch { luminance: self.luminance, chroma: self.chroma, hue: self.hue }),
    {
        CieLch::new(self.luminance, self.chroma, self.hue)
    }

    /// Deconstructs a CIELChA colour.
    pub fn get(self) -> (r: (T, T, T, T))
        ensures
            r == (self.luminance, self.chroma, self.hue, self.alpha),
    {
        (self.luminance, self.chroma, self.hue, self.alpha)
    }
}

impl<T: Component> Colour for CieLcha<T> {

}

impl<T: Component> DefinedGamut for CieLcha<T> {

}

/// An Oklch colour.
///
/// This type stores its three channels -- luminance, chroma, and hue -- one
/// after the other (in this order).
#[derive(Clone, Copy, Debug, Default, Eq, Ord, PartialEq, PartialOrd)]
pub struct OkLch<T: Component> {
    /// The luminance channel.
    pub luminance: T,
    /// The chroma channel.
    pub chroma: T,
    /// The hue channel.
    pub hue: T,
}

impl<T: Component> OkLch<T> {
    /// Constructs a new Oklch colour.
    pub fn new(luminance: T, chroma: T, hue: T) -> (r: Self)
        ensures
            r == (OkLch { luminance, chroma, hue }),
    {
        Self { luminance, chroma, hue }
    }

    /// Maps the Oklch colour's channels.
    pub fn map<U, F>(self, op: F) -> (r: OkLch<U>) where
        U: Component,
        F: Fn(T) -> U,
        requires
            call_requires(op, (self.luminance,)),
            call_requires(op, (self.chroma,)),
            call_requires(op, (self.hue,)),
        ensures
            call_ensures(op, (self.luminance,), r.luminance),
            call_ensures(op, (self.chroma,), r.chroma),
            call_ensures(op, (self.hue,), r.hue),
    {
        let luminance = op(self.luminance);
        let chroma = op(self.chroma);
        let hue = op(self.hue);
        OkLch { luminance, chroma, hue }
    }

    /// Deconstructs the Oklch colour.
    pub fn get(self) -> (r: (T, T, T))
        ensures
            r == (self.luminance, self.chroma, self.hue),
    {
        (self.luminance, self.chroma, self.hue)
    }
}

impl<T: Component> Colour for OkLch<T> {

}

impl<T: Component> BalancedColour for OkLch<T> {
    type Component = T;
}

impl<T: Component> DefinedGamut for OkLch<T> {

}

/// An Oklch colour with an alpha channel.
///
/// This type stores its four channels -- luminance, chroma, hue, and alpha
/// -- one after the other (in this order).
///
/// This type is equivalent to [`OkLch`] with an added alpha component.
#[derive(Clone, Copy, Debug, Default, Eq, Ord, PartialEq, PartialOrd)]
pub struct OkLcha<T: Component> {
    /// The luminance channel.
    pub luminance: T,
    /// The chroma channel.
    pub chroma: T,
    /// The hue channel.
    pub hue: T,
    /// The alpha channel.
    pub alpha: T,
}

impl<T: Component> OkLcha<T> {
    /// Constructs a new Oklch colour with an alpha channel.
    pub fn new(luminance: T, chroma: T, hue: T, alpha: T) -> (r: Self)
        ensures
            r == (OkLcha { luminance, chroma, hue, alpha }),
    {
        Self { luminance, chroma, hue, alpha }
    }

    /// Discards the colour's alpha channel.
    pub fn discard_alpha(self) -> (r: OkLch<T>)
        ensures
            r == (OkLch { luminance: self.luminance, chroma: self.chroma, hue: self.hue }),
    {
        OkLch::new(self.luminance, self.chroma, self.hue)
    }

    /// Deconstructs the colour.
    pub fn get(self) -> (r: (T, T, T, T))
        ensures
            r == (self.luminance, self.chroma, self.hue, self.alpha),
    {
        (self.luminance, self.chroma, self.hue, self.alpha)
    }
}

impl<T: Component> Colour for OkLcha<T> {

}

impl<T: Component> DefinedGamut for OkLcha<T> {

}

} // verus!

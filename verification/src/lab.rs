//! Lab-based colour facilities.

use vstd::prelude::*;
use crate::balanced_colour::BalancedColour;
use crate::colour::Colour;
use crate::component::Component;
use crate::defined_gamut::DefinedGamut;

verus! {

/// A CIELAB colour.
///
/// This type stores its three channels -- luminance, a*, and b* -- one
/// after the other (in this order).
#[derive(Clone, Copy, Debug, Default, Eq, Ord, PartialEq, PartialOrd)]
pub struct CieLab<T: Component> {
    /// The luminance channel.
    pub luminance: T,
    /// The a* channel.
    pub a_star: T,
    /// The b* channel.
    pub b_star: T,
}

impl<T: Component> CieLab<T> {
    /// Constructs a new CIELAB colour.
    pub fn new(luminance: T, a_star: T, b_star: T) -> (r: Self)
        ensures
            r == (CieLab { luminance, a_star, b_star }),
    {
        Self { luminance, a_star, b_star }
    }

    /// Maps the CIELAB colour's channels.
    pub fn map<U, F>(self, op: F) -> (r: CieLab<U>) where
        U: Component,
        F: Fn(T) -> U,
        requires
            call_requires(op, (self.luminance,)),
            call_requires(op, (self.a_star,)),
            call_requires(op, (self.b_star,)),
        ensures
            call_ensures(op, (self.luminance,), r.luminance),
            call_ensures(op, (self.a_star,), r.a_star),
            call_ensures(op, (self.b_star,), r.b_star),
    {
        let luminance = op(self.luminance);
        let a_star = op(self.a_star);
        let b_star = op(self.b_star);
        CieLab { luminance, a_star, b_star }
    }

    /// Deconstructs the CIELAB colour.
    pub fn get(self) -> (r: (T, T, T))
        ensures
            r == (self.luminance, self.a_star, self.b_star),
    {
        (self.luminance, self.a_star, self.b_star)
    }
}

impl<T: Component> Colour for CieLab<T> {

}

impl<T: Component> BalancedColour for CieLab<T> {
    type Component = T;
}

impl<T: Component> DefinedGamut for CieLab<T> {

}

/// A CIELABA colour.
///
/// This type stores its four channels -- lightness, a*, b*, and alpha --
/// one after the other (in this order).
///
/// This type is equivalent to [`CieLab`] with an added alpha component.
#[derive(Clone, Copy, Debug, Default, Eq, Ord, PartialEq, PartialOrd)]
pub struct CieLaba<T: Component> {
    /// The lightness channel.
    pub lightness: T,
    /// The a* channel.
    pub a_star: T,
    /// The b* channel.
    pub b_star: T,
    /// The alpha channel.
    pub alpha: T,
}

impl<T: Component> CieLaba<T> {
    /// Constructs a new CIELABA colour.
    pub fn new(lightness: T, a_star: T, b_star: T, alpha: T) -> (r: Self)
        ensures
            r == (CieLaba { lightness, a_star, b_star, alpha }),
    {
        Self { lightness, a_star, b_star, alpha }
    }

    /// Discards the CIELABA colour's alpha channel.
    pub fn discard_alpha(self) -> (r: (CieLab<T>, T))
        ensures
            r == ((CieLab { luminance: self.lightness, a_star: self.a_star,
            b_star: self.b_star }), self.alpha),
    {
        let colour = CieLab::new(self.lightness, self.a_star, self.b_star);
        (colour, self.alpha)
    }

    /// Deconstructs a CIELABA colour.
    pub fn get(self) -> (r: (T, T, T, T))
        ensures
            r == (self.lightness, self.a_star, self.b_star, self.alpha),
    {
        (self.lightness, self.a_star, self.b_star, self.alpha)
    }
}

impl<T: Component> Colour for CieLaba<T> {

}

impl<T: Component> DefinedGamut for CieLaba<T> {

}

/// An Oklab colour.
///
/// This type stores its three channels -- luminance, a*, and b* -- one
/// after the other (in this order).
#[derive(Clone, Copy, Debug, Default, Eq, Ord, PartialEq, PartialOrd)]
pub struct OkLab<T: Component> {
    /// The luminance channel.
    pub luminance: T,
    /// The a* channel.
    pub a_star: T,
    /// The b* channel.
    pub b_star: T,
}

impl<T: Component> OkLab<T> {
    /// Constructs a new Oklab colour.
    pub fn new(luminance: T, a_star: T, b_star: T) -> (r: Self)
        ensures
            r == (OkLab { luminance, a_star, b_star }),
    {
        Self { luminance, a_star, b_star }
    }

    /// Maps the Oklab colour's channels.
    pub fn map<U, F>(self, op: F) -> (r: OkLab<U>) where
        U: Component,
        F: Fn(T) -> U,
        requires
            call_requires(op, (self.luminance,)),
            call_requires(op, (self.a_star,)),
            call_requires(op, (self.b_star,)),
        ensures
            call_ensures(op, (self.luminance,), r.luminance),
            call_ensures(op, (self.a_star,), r.a_star),
            call_ensures(op, (self.b_star,), r.b_star),
    {
        let luminance = op(self.luminance);
        let a_star = op(self.a_star);
        let b_star = op(self.b_star);
        OkLab { luminance, a_star, b_star }
    }

    /// Deconstructs the Oklab colour.
    pub fn get(self) -> (r: (T, T, T))
        ensures
            r == (self.luminance, self.a_star, self.b_star),
    {
        (self.luminance, self.a_star, self.b_star)
    }
}

impl<T: Component> Colour for OkLab<T> {

}

impl<T: Component> BalancedColour for OkLab<T> {
    type Component = T;
}

impl<T: Component> DefinedGamut for OkLab<T> {

}

/// An Oklab colour with an alpha channel.
///
/// This type stores its four channels -- lightness, a*, b*, and alpha --
/// one after the other (in this order).
///
/// This type is equivalent to [`OkLab`] with an added alpha component.
#[derive(Clone, Copy, Debug, Default, Eq, Ord, PartialEq, PartialOrd)]
pub struct OkLaba<T: Component> {
    /// The lightness channel.
    pub lightness: T,
    /// The a* channel.
    pub a_star: T,
    /// The b* channel.
    pub b_star: T,
    /// The alpha channel.
    pub alpha: T,
}

impl<T: Component> OkLaba<T> {
    /// Constructs a new Oklab colour with an alpha channel.
    pub fn new(lightness: T, a_star: T, b_star: T, alpha: T) -> (r: Self)
        ensures
            r == (OkLaba { lightness, a_star, b_star, alpha }),
    {
        Self { lightness, a_star, b_star, alpha }
    }

    /// Discards the colour's alpha channel.
    pub fn discard_alpha(self) -> (r: (OkLab<T>, T))
        ensures
            r == ((OkLab { luminance: self.lightness, a_star: self.a_star,
            b_star: self.b_star }), self.alpha),
    {
        let colour = OkLab::new(self.lightness, self.a_star, self.b_star);
        (colour, self.alpha)
    }

    /// Deconstructs the colour.
    pub fn get(self) -> (r: (T, T, T, T))
        ensures
            r == (self.lightness, self.a_star, self.b_star, self.alpha),
    {
        (self.lightness, self.a_star, self.b_star, self.alpha)
    }
}

impl<T: Component> Colour for OkLaba<T> {

}

impl<T: Component> DefinedGamut for OkLaba<T> {

}

} // verus!

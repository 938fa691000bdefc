//! HSV-based colour facilities.

use vstd::prelude::*;
use crate::balanced_colour::BalancedColour;
use crate::colour::Colour;
use crate::component::Component;

verus! {

/// An HSL colour.
///
/// This type stores its three channels -- hue, saturation, and luminosity
/// (or *lightness*) -- one after the other (in this order).
#[derive(Clone, Copy, Debug, Default, Eq, Ord, PartialEq, PartialOrd)]
pub struct Hsl<T: Component> {
    /// The hue channel.
    pub hue: T,
    /// The saturation channel.
    pub saturation: T,
    /// The luminosity channel.
    pub luminosity: T,
}

impl<T: Component> Hsl<T> {
    /// Constructs a new HSL colour.
    pub fn new(hue: T, saturation: T, luminosity: T) -> (r: Self)
        ensures
            r == (Hsl { hue, saturation, luminosity }),
    {
        Self { hue, saturation, luminosity }
    }

    /// Maps the HSL colour's channels.
    pub fn map<U, F>(self, op: F) -> (r: Hsl<U>) where
        U: Component,
        F: Fn(T) -> U,
        requires
            call_requires(op, (self.hue,)),
            call_requires(op, (self.saturation,)),
            call_requires(op, (self.luminosity,)),
        ensures
            call_ensures(op, (self.hue,), r.hue),
            call_ensures(op, (self.saturation,), r.saturation),
            call_ensures(op, (self.luminosity,), r.luminosity),
    {
        let hue = op(self.hue);
        let saturation = op(self.saturation);
        let luminosity = op(self.luminosity);
        Hsl { hue, saturation, luminosity }
    }

    /// Deconstructs the HSL colour.
    pub fn get(self) -> (r: (T, T, T))
        ensures
            r == (self.hue, self.saturation, self.luminosity),
    {
        (self.hue, self.saturation, self.luminosity)
    }
}

impl<T: Component> Colour for Hsl<T> {

}

impl<T: Component> BalancedColour for Hsl<T> {
    type Component = T;
}

/// An HSLA colour.
///
/// This type stores its four channels -- hue, saturation, luminosity (or
/// *lightness*), and alpha -- one after the other (in this order).
#[derive(Clone, Copy, Debug, Default, Eq, Ord, PartialEq, PartialOrd)]
pub struct Hsla<T: Component> {
    /// The hue channel.
    pub hue: T,
    /// The saturation channel.
    pub saturation: T,
    /// The luminosity channel.
    pub luminosity: T,
    /// The alpha channel.
    pub alpha: T,
}

impl<T: Component> Hsla<T> {
    /// Constructs a new HSLA colour.
    pub fn new(hue: T, saturation: T, luminosity: T, alpha: T) -> (r: Self)
        ensures
            r == (Hsla { hue, saturation, luminosity, alpha }),
    {
        Self { hue, saturation, luminosity, alpha }
    }

    /// Discards the HSLA colour's alpha channel.
    pub fn discard_alpha(self) -> (r: (Hsv<T>, T))
        ensures
            r == ((Hsv { hue: self.hue, saturation: self.saturation, value: self.luminosity }),
            self.alpha),
    {
        let colour = Hsv::new(self.hue, self.saturation, self.luminosity);
        (colour, self.alpha)
    }

    /// Deconstructs an HSLA colour.
    pub fn get(self) -> (r: (T, T, T, T))
        ensures
            r == (self.hue, self.saturation, self.luminosity, self.alpha),
    {
        (self.hue, self.saturation, self.luminosity, self.alpha)
    }
}

impl<T: Component> Colour for Hsla<T> {

}

/// An HSV colour.
///
/// This type stores its three channels -- hue, saturation, and value -- one
/// after the other (in this order).
#[derive(Clone, Copy, Debug, Default, Eq, Ord, PartialEq, PartialOrd)]
pub struct Hsv<T: Component> {
    /// The hue channel.
    pub hue: T,
    /// The saturation channel.
    pub saturation: T,
    /// The value channel.
    pub value: T,
}

impl<T: Component> Hsv<T> {
    /// Constructs a new HSV colour.
    pub fn new(hue: T, saturation: T, value: T) -> (r: Self)
        ensures
            r == (Hsv { hue, saturation, value }),
    {
        Self { hue, saturation, value }
    }

    /// Maps the HSV colour's channels.
    pub fn map<U, F>(self, op: F) -> (r: Hsv<U>) where
        U: Component,
        F: Fn(T) -> U,
        requires
            call_requires(op, (self.hue,)),
            call_requires(op, (self.saturation,)),
            call_requires(op, (self.value,)),
        ensures
            call_ensures(op, (self.hue,), r.hue),
            call_ensures(op, (self.saturation,), r.saturation),
            call_ensures(op, (self.value,), r.value),
    {
        let hue = op(self.hue);
        let saturation = op(self.saturation);
        let value = op(self.value);
        Hsv { hue, saturation, value }
    }

    /// Deconstructs the HSV colour.
    pub fn get(self) -> (r: (T, T, T))
        ensures
            r == (self.hue, self.saturation, self.value),
    {
        (self.hue, self.saturation, self.value)
    }
}

impl<T: Component> Colour for Hsv<T> {

}

impl<T: Component> BalancedColour for Hsv<T> {
    type Component = T;
}

/// An HSVA colour.
///
/// This type stores its four channels -- hue, saturation, value, and alpha
/// -- one after the other (in this order).
#[derive(Clone, Copy, Debug, Default, Eq, Ord, PartialEq, PartialOrd)]
pub struct Hsva<T: Component> {
    /// The hue channel.
    pub hue: T,
    /// The saturation channel.
    pub saturation: T,
    /// The value channel.
    pub value: T,
    /// The alpha channel.
    pub alpha: T,
}

impl<T: Component> Hsva<T> {
    /// Constructs a new HSVA colour.
    pub fn new(hue: T, saturation: T, value: T, alpha: T) -> (r: Self)
        ensures
            r == (Hsva { hue, saturation, value, alpha }),
    {
        Self { hue, saturation, value, alpha }
    }

    /// Discards the HSVA colour's alpha channel.
    pub fn discard_alpha(self) -> (r: (Hsv<T>, T))
        ensures
            r == ((Hsv { hue: self.hue, saturation: self.saturation, value: self.value }),
            self.alpha),
    {
        let colour = Hsv::new(self.hue, self.saturation, self.value);
        (colour, self.alpha)
    }

    /// Deconstructs an HSVA colour.
    pub fn get(self) -> (r: (T, T, T, T))
        ensures
            r == (self.hue, self.saturation, self.value, self.alpha),
    {
        (self.hue, self.saturation, self.value, self.alpha)
    }
}

impl<T: Component> Colour for Hsva<T> {

}

/// An HWB colour.
///
/// This type stores its three channels -- hue, whiteness, and blackness --
/// one after the other (in this order).
#[derive(Clone, Copy, Debug, Default, Eq, Ord, PartialEq, PartialOrd)]
pub struct Hwb<T: Component> {
    /// The hue channel.
    pub hue: T,
    /// The whiteness channel.
    pub whiteness: T,
    /// The blackness channel.
    pub blackness: T,
}

impl<T: Component> Hwb<T> {
    /// Constructs a new HWB colour.
    pub fn new(hue: T, whiteness: T, blackness: T) -> (r: Self)
        ensures
            r == (Hwb { hue, whiteness, blackness }),
    {
        Self { hue, whiteness, blackness }
    }

    /// Maps the HWB colour's channels.
    pub fn map<U, F>(self, op: F) -> (r: Hwb<U>) where
        U: Component,
        F: Fn(T) -> U,
        requires
            call_requires(op, (self.hue,)),
            call_requires(op, (self.whiteness,)),
            call_requires(op, (self.blackness,)),
        ensures
            call_ensures(op, (self.hue,), r.hue),
            call_ensures(op, (self.whiteness,), r.whiteness),
            call_ensures(op, (self.blackness,), r.blackness),
    {
        let hue = op(self.hue);
        let whiteness = op(self.whiteness);
        let blackness = op(self.blackness);
        Hwb { hue, whiteness, blackness }
    }

    /// Deconstructs the HWB colour.
    pub fn get(self) -> (r: (T, T, T))
        ensures
            r == (self.hue, self.whiteness, self.blackness),
    {
        (self.hue, self.whiteness, self.blackness)
    }
}

impl<T: Component> Colour for Hwb<T> {

}

impl<T: Component> BalancedColour for Hwb<T> {
    type Component = T;
}

} // verus!

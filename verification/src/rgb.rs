//! RGB-based colour facilities.

use vstd::prelude::*;
use crate::balanced_colour::BalancedColour;
use crate::colour::Colour;
use crate::component::Component;
use crate::defined_gamut::DefinedGamut;
use crate::rgba::Rgba;

verus! {

/// A raw RGB colour.
///
/// This type stores its three channels -- red, green, and blue -- one after
/// the other (in this order).
///
/// Unlike other colours such as [`SRgb`], this one does not define a gamut
/// *per se*; instead, users of this type are to interpret it on their own.
#[derive(Clone, Copy, Debug, Default, Eq, Ord, PartialEq, PartialOrd)]
pub struct Rgb<T: Component> {
    /// The red channel.
    pub red: T,
    /// The green channel.
    pub green: T,
    /// The blue channel.
    pub blue: T,
}

impl<T: Component> Rgb<T> {
    /// Constructs a new, raw RGB colour.
    pub fn new(red: T, green: T, blue: T) -> (r: Self)
        ensures
            r == (Rgb { red, green, blue }),
    {
        Self { red, green, blue }
    }

    /// Maps the RGB colour's channels.
    pub fn map<U, F>(self, op: F) -> (r: Rgb<U>) where
        U: Component,
        F: Fn(T) -> U,
        requires
            call_requires(op, (self.red,)),
            call_requires(op, (self.green,)),
            call_requires(op, (self.blue,)),
        ensures
            call_ensures(op, (self.red,), r.red),
            call_ensures(op, (self.green,), r.green),
            call_ensures(op, (self.blue,), r.blue),
    {
        let red = op(self.red);
        let green = op(self.green);
        let blue = op(self.blue);
        Rgb { red, green, blue }
    }

    /// Deconstructs the raw RGB colour.
    pub fn get(self) -> (r: (T, T, T))
        ensures
            r == (self.red, self.green, self.blue),
    {
        (self.red, self.green, self.blue)
    }
}

impl<T: Component> Colour for Rgb<T> {

}

impl<T: Component> BalancedColour for Rgb<T> {
    type Component = T;
}

/// An sRGB colour.
///
/// This type always has the exact same channel structure as
/// <code>[Rgb]&lt;T&gt;</code>, although with a different interpretation:
/// its channels are gamma-encoded as by the sRGB transfer function, and
/// channel order is preserved.
#[derive(Clone, Copy, Debug, Default, Eq, Ord, PartialEq, PartialOrd)]
pub struct SRgb<T: Component>(pub Rgb<T>);

impl<T: Component> SRgb<T> {
    /// Constructs a new sRGB colour.
    pub fn new(red: T, green: T, blue: T) -> (r: Self)
        ensures
            r == (SRgb(Rgb { red, green, blue })),
    {
        Self(Rgb::new(red, green, blue))
    }

    /// Reinterprets a raw RGB colour as sRGB.
    ///
    /// The provided colour is taken as already scaled to fit the sRGB gamut.
    pub fn from_rgb(colour: Rgb<T>) -> (r: Self)
        ensures
            r == (SRgb(colour)),
    {
        Self(colour)
    }

    /// Maps the sRGB colour's channels.
    pub fn map<U, F>(self, op: F) -> (r: SRgb<U>) where
        U: Component,
        F: Fn(T) -> U,
        requires
            call_requires(op, (self.0.red,)),
            call_requires(op, (self.0.green,)),
            call_requires(op, (self.0.blue,)),
        ensures
            call_ensures(op, (self.0.red,), r.0.red),
            call_ensures(op, (self.0.green,), r.0.green),
            call_ensures(op, (self.0.blue,), r.0.blue),
    {
        let red = op(self.0.red);
        let green = op(self.0.green);
        let blue = op(self.0.blue);
        SRgb(Rgb { red, green, blue })
    }

    /// Reinterprets the sRGB colour as a raw RGB colour.
    pub fn as_rgb(self) -> (r: Rgb<T>)
        ensures
            r == self.0,
    {
        self.0
    }

    /// Deconstructs the sRGB colour.
    pub fn get(self) -> (r: (T, T, T))
        ensures
            r == (self.0.red, self.0.green, self.0.blue),
    {
        (self.0.red, self.0.green, self.0.blue)
    }
}

impl<T: Component> Colour for SRgb<T> {

}

impl<T: Component> BalancedColour for SRgb<T> {
    type Component = T;
}

impl<T: Component> DefinedGamut for SRgb<T> {

}

/// An opRGB (also known as Adobe RGB) colour.
///
/// This type always has the exact same channel structure as
/// <code>[Rgb]&lt;T&gt;</code>, although with a different interpretation.
/// Channel order is preserved.
#[derive(Clone, Copy, Debug, Default, Eq, Ord, PartialEq, PartialOrd)]
pub struct OpRgb<T: Component>(pub Rgb<T>);

impl<T: Component> OpRgb<T> {
    /// Constructs a new opRGB colour.
    pub fn new(red: T, green: T, blue: T) -> (r: Self)
        ensures
            r == (OpRgb(Rgb { red, green, blue })),
    {
        Self(Rgb::new(red, green, blue))
    }

    /// Maps the opRGB colour's channels.
    pub fn map<U, F>(self, op: F) -> (r: OpRgb<U>) where
        U: Component,
        F: Fn(T) -> U,
        requires
            call_requires(op, (self.0.red,)),
            call_requires(op, (self.0.green,)),
            call_requires(op, (self.0.blue,)),
        ensures
            call_ensures(op, (self.0.red,), r.0.red),
            call_ensures(op, (self.0.green,), r.0.green),
            call_ensures(op, (self.0.blue,), r.0.blue),
    {
        let red = op(self.0.red);
        let green = op(self.0.green);
        let blue = op(self.0.blue);
        OpRgb(Rgb { red, green, blue })
    }

    /// Reinterprets the opRGB colour as a raw RGB colour.
    pub fn as_rgb(self) -> (r: Rgb<T>)
        ensures
            r == self.0,
    {
        self.0
    }

    /// Deconstructs the opRGB colour.
    pub fn get(self) -> (r: (T, T, T))
        ensures
            r == (self.0.red, self.0.green, self.0.blue),
    {
        (self.0.red, self.0.green, self.0.blue)
    }
}

impl<T: Component> Colour for OpRgb<T> {

}

impl<T: Component> BalancedColour for OpRgb<T> {
    type Component = T;
}

impl<T: Component> DefinedGamut for OpRgb<T> {

}

/// An opRGBA colour.
///
/// This type always has the exact same channel structure as
/// <code>[Rgba]&lt;T&gt;</code>, although with a different interpretation.
/// Channel order is preserved.
///
/// This type is equivalent to [`OpRgb`] with an added alpha component.
#[derive(Clone, Copy, Debug, Default, Eq, Ord, PartialEq, PartialOrd)]
pub struct OpRgba<T: Component>(pub Rgba<T>);

impl<T: Component> OpRgba<T> {
    /// Constructs a new opRGBA colour.
    pub fn new(red: T, green: T, blue: T, alpha: T) -> (r: Self)
        ensures
            r == (OpRgba(Rgba { red, green, blue, alpha })),
    {
        Self(Rgba::new(red, green, blue, alpha))
    }

    /// Discards the opRGBA colour's alpha channel.
    pub fn discard_alpha(self) -> (r: OpRgb<T>)
        ensures
            r == (OpRgb(Rgb { red: self.0.red, green: self.0.green, blue: self.0.blue })),
    {
        OpRgb::new(self.0.red, self.0.green, self.0.blue)
    }

    /// Reinterprets the opRGBA colour as a raw RGBA colour.
    pub fn as_rgba(self) -> (r: Rgba<T>)
        ensures
            r == self.0,
    {
        self.0
    }

    /// Deconstructs the opRGBA colour.
    pub fn get(self) -> (r: (T, T, T, T))
        ensures
            r == (self.0.red, self.0.green, self.0.blue, self.0.alpha),
    {
        (self.0.red, self.0.green, self.0.blue, self.0.alpha)
    }
}

impl<T: Component> Colour for OpRgba<T> {

}

impl<T: Component> DefinedGamut for OpRgba<T> {

}

} // verus!

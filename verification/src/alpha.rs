//! The [`Alpha`] attachment.

use vstd::prelude::*;
use crate::balanced_colour::BalancedColour;
use crate::colour::Colour;
use crate::defined_gamut::DefinedGamut;

verus! {

/// Denotes a colour with an attached alpha channel.
///
/// Most (if not all) colour models define the same semantics for the alpha
/// channel. For this reason, the alpha channel contained in this type is
/// always stored **last**, and it is also always linearly encoded, no matter
/// what transfer function the colour's own channels use.
///
/// If another, specific representation is desired, then a custom, complete
/// type should be defined instead.
#[derive(Clone, Copy, Debug, Default, Eq, Ord, PartialEq, PartialOrd)]
pub struct Alpha<T: BalancedColour> {
    /// The colour the alpha channel is attached to.
    pub colour: T,
    /// The trailing alpha channel.
    pub alpha: T::Component,
}

impl<T: BalancedColour> Alpha<T> {
    /// Attaches an alpha channel to a colour.
    pub fn attach(colour: T, alpha: T::Component) -> (r: Self)
        ensures
            r.colour == colour,
            r.alpha == alpha,
    {
        Self { colour, alpha }
    }

    /// Detaches the colour from its alpha channel.
    pub fn detach(self) -> (r: (T, T::Component))
        ensures
            r.0 == self.colour,
            r.1 == self.alpha,
    {
        (self.colour, self.alpha)
    }
}

/// Attaching an alpha channel and detaching it again is the identity, on both
/// the colour and the alpha value.
pub proof fn lemma_attach_detach_round_trip<T: BalancedColour>(colour: T, alpha: T::Component)
    ensures
        ({
            let attached = (Alpha { colour, alpha });
            (attached.colour, attached.alpha) == (colour, alpha)
        }),
{
}

impl<T: BalancedColour> Colour for Alpha<T> {

}

impl<T: BalancedColour> BalancedColour for Alpha<T> {
    type Component = T::Component;
}

impl<T: BalancedColour + DefinedGamut> DefinedGamut for Alpha<T> {

}

} // verus!

//! The [`BalancedColour`] capability.

use vstd::prelude::*;
use crate::colour::Colour;
use crate::component::Component;

verus! {

/// Denotes a "balanced" colour.
///
/// Types that implement this trait state that they are built up of equal
/// channels of one component type (see [`Component`](Self::Component)), with
/// the channels stored one after the other and nothing in between.
///
/// This trait is mainly useful when the underlying channel structure of
/// [`Alpha`](crate::Alpha) needs to be guaranteed: the alpha channel uses the
/// same component type as the colour it is attached to.
pub trait BalancedColour: Colour {
    /// The underlying type used by `Self` to represent colour channels.
    type Component: Component;
}

} // verus!

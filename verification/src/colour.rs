//! The [`Colour`] trait.

use vstd::prelude::*;

verus! {

/// Denotes a colour.
///
/// This trait marks the value types of this crate that stand for a colour in
/// some colour model. It carries no operations of its own; conversions are
/// defined on the individual colour types.
pub trait Colour {

}

} // verus!

//! The [`Component`] capability.

use vstd::prelude::*;

verus! {

/// Denotes a type suitable for use as a colour component.
///
/// A component is a plain, copyable numeric value backing one channel of a
/// colour. Integer components follow a fixed-point convention: the range
/// `0 ..= MAX` stands for the closed unit interval.
pub trait Component: Copy + Sized {

}

impl Component for u8 {

}

impl Component for i8 {

}

impl Component for u16 {

}

impl Component for i16 {

}

impl Component for u32 {

}

impl Component for i32 {

}

impl Component for u64 {

}

impl Component for i64 {

}

impl Component for u128 {

}

impl Component for i128 {

}

} // verus!

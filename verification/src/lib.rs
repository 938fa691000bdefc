//! Vector-based colour manipulators.
//!
//! This library provides small, fixed-size value types for colours in a
//! number of colour models, together with conversions between them and
//! textual parsing and formatting of hexadecimal and named colour codes.

mod alpha;
mod balanced_colour;
mod colour;
mod component;
mod defined_gamut;

pub mod error;
pub mod hex;
pub mod hsv;
pub mod lab;
pub mod lch;
pub mod rgb;
pub mod rgba;
pub mod srgba8;
pub mod www;
pub mod xyz;

pub use alpha::Alpha;
pub use alpha::lemma_attach_detach_round_trip;
pub use balanced_colour::BalancedColour;
pub use colour::Colour;
pub use component::Component;
pub use defined_gamut::DefinedGamut;

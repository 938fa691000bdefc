//! WWW-oriented colour facilities.

mod css;
mod html;
mod named;

pub use css::Css;
pub use css::css_of_u32;
pub use css::css_parse;
pub use css::lemma_css_format_parse_round_trip;
pub use css::lemma_css_u32_round_trip;
pub use css::u32_of_css;
pub use html::Html;
pub use html::char_is_alphanumeric;
pub use html::html_of_u32;
pub use html::html_parse;
pub use html::lemma_html_format_parse_round_trip;
pub use html::lemma_html_u32_round_trip;
pub use html::u32_of_html;
pub use named::named_colour_spec;

use polywave::error::{CssFromStrError, HtmlFromStrError};
use polywave::www::{Css, Html};

#[test]
fn test_css_display() {
    assert_eq!(Css::from_u32(0xF0F8FFFF).to_string(), "#F0F8FFFF");
}

#[test]
fn test_css_from_str() {
    assert_eq!(Css::from_str("#639"), Ok(Css::new(0x66, 0x33, 0x99, 0xFF)));

    assert_eq!(Css::from_str("#00FF7F"), Ok(Css::new(0x00, 0xFF, 0x7F, 0xFF)));

    assert_eq!(Css::from_str("#FfD7007f"), Ok(Css::new(0xFF, 0xD7, 0x00, 0x7F)));

    assert_eq!(Css::from_str("transparent"), Ok(Css::new(0x00, 0x00, 0x00, 0x00)));
}

#[test]
fn test_css_from_u32() {
    assert_eq!(Css::from_u32(0x80808080), Css::new(0x80, 0x80, 0x80, 0x80));
}

#[test]
fn test_html_display() {
    assert_eq!(Html::from_u32(0xF0F8FFFF).to_string(), "#F0F8FFFF");
}

#[test]
fn test_html_from_str() {
    assert_eq!(Html::from_str("#639"), Ok(Html::new(0x66, 0x33, 0x99, 0xFF)));

    assert_eq!(Html::from_str("#00FF7F"), Ok(Html::new(0x00, 0xFF, 0x7F, 0xFF)));

    assert_eq!(Html::from_str("#FfD7007f"), Ok(Html::new(0xFF, 0xD7, 0x00, 0x7F)));

    assert_eq!(Html::from_str("transparent"), Ok(Html::new(0x00, 0x00, 0x00, 0x00)));
}

#[test]
fn test_html_from_u32() {
    assert_eq!(Html::from_u32(0x80808080), Html::new(0x80, 0x80, 0x80, 0x80));
}

#[test]
fn test_html_four_digit_code() {
    assert_eq!(Html::from_str("#639f"), Ok(Html::new(0x66, 0x33, 0x99, 0xFF)));
    assert_eq!(Html::from_str("#6397"), Ok(Html::new(0x66, 0x33, 0x99, 0x77)));
}

#[test]
fn test_css_rejects_four_digit_alpha_code() {
    assert_eq!(Css::from_str("#639f"), Err(CssFromStrError::UnknownFormat));
}

#[test]
fn test_html_named_colours() {
    assert_eq!(Html::from_str("aliceblue"), Ok(Html::from_u32(0xF0F8FFFF)));
    assert_eq!(Html::from_str("rebeccapurple"), Ok(Html::from_u32(0x663399FF)));
    assert_eq!(Html::from_str("blue"), Ok(Html::from_u32(0x0000FFFF)));
    assert_eq!(Html::from_str("blueviolet"), Ok(Html::from_u32(0x8A2BE2FF)));
    assert_eq!(Html::from_str("cornflowerblue"), Ok(Html::from_u32(0x6495EDFF)));
    assert_eq!(Html::from_str("cornsilk"), Ok(Html::from_u32(0xFFF8DCFF)));
    assert_eq!(Html::from_str("darkgrey"), Html::from_str("darkgray"));
    assert_eq!(Html::from_str("cyan"), Html::from_str("aqua"));
}

#[test]
fn test_html_unknown_name() {
    // A bare word that is alphanumeric but matches no entry of the table.
    assert_eq!(Html::from_str("zzzzz"), Err(HtmlFromStrError::UnknownName));
    assert_eq!(Html::from_str("AliceBlue"), Err(HtmlFromStrError::UnknownName));
}

#[test]
fn test_html_missing_hash() {
    // Not a name, and the first character is not alphanumeric.
    assert_eq!(Html::from_str("!!!!!"), Err(HtmlFromStrError::MissingHash));
    assert_eq!(Html::from_str(""), Err(HtmlFromStrError::MissingHash));
}

#[test]
fn test_html_unknown_format() {
    assert_eq!(Html::from_str("#GGG"), Err(HtmlFromStrError::UnknownFormat));
    assert_eq!(Html::from_str("#12345"), Err(HtmlFromStrError::UnknownFormat));
    assert_eq!(Html::from_str("#"), Err(HtmlFromStrError::UnknownFormat));
}

#[test]
fn test_css_missing_hash() {
    assert_eq!(Css::from_str("notacolour"), Err(CssFromStrError::MissingHash));
    assert_eq!(Css::from_str(""), Err(CssFromStrError::MissingHash));
}

#[test]
fn test_css_unknown_format() {
    assert_eq!(Css::from_str("#GGG"), Err(CssFromStrError::UnknownFormat));
    assert_eq!(Css::from_str("#12345"), Err(CssFromStrError::UnknownFormat));
}

#[test]
fn test_css_format_parse_round_trip() {
    let colour = Css::new(0x12, 0x34, 0x56, 0x78);
    assert_eq!(Css::from_str(&colour.to_string()), Ok(colour));
    assert_eq!(Css::from_str("#12345678").unwrap().to_u32(), 0x12345678);
}

#[test]
fn test_html_format_parse_round_trip() {
    let colour = Html::new(0xAB, 0xCD, 0xEF, 0x01);
    assert_eq!(Html::from_str(&colour.to_string()), Ok(colour));
}

#[test]
fn test_css_error_messages() {
    assert_eq!(
        CssFromStrError::MissingHash.to_string(),
        "css colour is missing prefixed hash `#`",
    );
    assert_eq!(
        CssFromStrError::UnknownFormat.to_string(),
        "css colour is of an otherwise unknown format",
    );
}

#[test]
fn test_html_error_messages() {
    assert_eq!(
        HtmlFromStrError::MissingHash.to_string(),
        "html hexadecimal colour is missing prefixed hash `#`",
    );
    assert_eq!(
        HtmlFromStrError::UnknownFormat.to_string(),
        "html colour is of an otherwise unknown format",
    );
    assert_eq!(HtmlFromStrError::UnknownName.to_string(), "html named colour is unknown");
}

#[test]
fn test_css_conversions() {
    let colour = Css::new(0x11, 0x22, 0x33, 0x44);
    assert_eq!(colour.get(), (0x11, 0x22, 0x33, 0x44));
    assert_eq!(colour.to_u32(), 0x11223344);
    assert_eq!(Css::from_rgba(colour.to_rgba()), colour);
    assert_eq!(Css::from_u32(colour.to_u32()), colour);
}

#[test]
fn test_html_conversions() {
    let colour = Html::new(0x11, 0x22, 0x33, 0x44);
    assert_eq!(colour.get(), (0x11, 0x22, 0x33, 0x44));
    assert_eq!(colour.to_u32(), 0x11223344);
    assert_eq!(Html::from_s_rgba(colour.to_s_rgba()), colour);
    assert_eq!(Html::from_u32(colour.to_u32()), colour);
}

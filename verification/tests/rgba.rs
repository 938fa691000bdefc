use polywave::error::RgbaU8FromStrError;
use polywave::rgba::Rgba;

#[test]
fn test_rgba_u8_display() {
    assert_eq!(Rgba::<u8>::from_u32(0xF0F8FFFF).to_string(), "#F0F8FFFF");
}

#[test]
fn test_rgba_u8_from_str() {
    assert_eq!(Rgba::<u8>::from_str("#639"), Ok(Rgba::new(0x66, 0x33, 0x99, 0xFF)));

    assert_eq!(Rgba::<u8>::from_str("#00FF7F"), Ok(Rgba::new(0x00, 0xFF, 0x7F, 0xFF)));

    assert_eq!(Rgba::<u8>::from_str("#FfD7007f"), Ok(Rgba::new(0xFF, 0xD7, 0x00, 0x7F)));
}

#[test]
fn test_rgba_u8_from_u32() {
    assert_eq!(Rgba::<u8>::from_u32(0x80808080), Rgba::<u8>::new(0x80, 0x80, 0x80, 0x80));
}

#[test]
fn test_rgba_u8_u32_round_trip() {
    assert_eq!(Rgba::<u8>::from_u32(0x12345678).to_u32(), 0x12345678);
    let colour = Rgba::<u8>::new(0xDE, 0xAD, 0xBE, 0xEF);
    assert_eq!(Rgba::<u8>::from_u32(colour.to_u32()), colour);
}

#[test]
fn test_rgba_u8_missing_hash() {
    assert_eq!(Rgba::<u8>::from_str("639"), Err(RgbaU8FromStrError::MissingHash));
    assert_eq!(Rgba::<u8>::from_str(""), Err(RgbaU8FromStrError::MissingHash));
}

#[test]
fn test_rgba_u8_invalid_length() {
    assert_eq!(Rgba::<u8>::from_str("#639f"), Err(RgbaU8FromStrError::InvalidLength(5)));
    assert_eq!(Rgba::<u8>::from_str("#"), Err(RgbaU8FromStrError::InvalidLength(1)));
    assert_eq!(Rgba::<u8>::from_str("#1234567890"), Err(RgbaU8FromStrError::InvalidLength(11)));
}

#[test]
fn test_rgba_u8_unknown_format() {
    assert_eq!(Rgba::<u8>::from_str("#GGG"), Err(RgbaU8FromStrError::UnknownFormat));
    assert_eq!(Rgba::<u8>::from_str("#63 9AF"), Err(RgbaU8FromStrError::UnknownFormat));
}

#[test]
fn test_rgba_u8_format_parse_round_trip() {
    let colour = Rgba::<u8>::new(0x01, 0x23, 0x45, 0x67);
    assert_eq!(Rgba::<u8>::from_str(&colour.to_string()), Ok(colour));
}

#[test]
fn test_rgba_u8_error_messages() {
    assert_eq!(
        RgbaU8FromStrError::InvalidLength(5).to_string(),
        "rgba code has length `5` but should have been neither `4` or `7` or `9` octets long",
    );
    assert_eq!(
        RgbaU8FromStrError::InvalidLength(11).to_string(),
        "rgba code has length `11` but should have been neither `4` or `7` or `9` octets long",
    );
    assert_eq!(
        RgbaU8FromStrError::MissingHash.to_string(),
        "rgba code is missing prefixed hash `#`",
    );
    assert_eq!(
        RgbaU8FromStrError::UnknownFormat.to_string(),
        "rgba code is of an otherwise unknown format",
    );
}

#[test]
fn test_rgba_discard_alpha() {
    let colour = Rgba::<u8>::new(1, 2, 3, 4);
    let rgb = colour.discard_alpha();
    assert_eq!(rgb.get(), (1, 2, 3));
}

use polywave::Alpha;
use polywave::hsv::{Hsl, Hsla, Hsv, Hsva, Hwb};
use polywave::lab::{CieLab, CieLaba, OkLab, OkLaba};
use polywave::lch::{CieLch, CieLcha, OkLch, OkLcha};
use polywave::rgb::{OpRgb, OpRgba, Rgb, SRgb};
use polywave::srgba8::Srgba8;
use polywave::xyz::{CieXyz, CieXyza};

#[test]
fn test_alpha_attach_detach_round_trip() {
    let colour = SRgb::new(0x12u8, 0x34, 0x56);
    let attached = Alpha::attach(colour, 0x78u8);
    assert_eq!(attached.detach(), (colour, 0x78));

    let colour = Rgb::new(1u16, 2, 3);
    let attached = Alpha::attach(colour, 4u16);
    assert_eq!(attached.detach(), (colour, 4));
}

#[test]
fn test_rgb_new_get_map() {
    let colour = Rgb::new(10u8, 20, 30);
    assert_eq!(colour.get(), (10, 20, 30));
    let doubled = colour.map(|c: u8| c * 2);
    assert_eq!(doubled.get(), (20, 40, 60));
}

#[test]
fn test_s_rgb_conversions() {
    let colour = SRgb::new(1u8, 2, 3);
    assert_eq!(colour.get(), (1, 2, 3));
    assert_eq!(SRgb::from_rgb(colour.as_rgb()), colour);
    let widened = colour.map(|c: u8| c as u16 + 1);
    assert_eq!(widened.get(), (2u16, 3, 4));
}

#[test]
fn test_op_rgb_conversions() {
    let colour = OpRgb::new(9u8, 8, 7);
    assert_eq!(colour.get(), (9, 8, 7));
    assert_eq!(colour.as_rgb().get(), (9, 8, 7));
    assert_eq!(colour.map(|c: u8| c + 1).get(), (10, 9, 8));
}

#[test]
fn test_op_rgba_conversions() {
    let colour = OpRgba::new(9u8, 8, 7, 6);
    assert_eq!(colour.get(), (9, 8, 7, 6));
    assert_eq!(colour.as_rgba().get(), (9, 8, 7, 6));
    assert_eq!(colour.discard_alpha().get(), (9, 8, 7));
}

#[test]
fn test_hsl_family() {
    let colour = Hsl::new(100u8, 50, 25);
    assert_eq!(colour.get(), (100, 50, 25));
    assert_eq!(colour.map(|c: u8| c / 5).get(), (20, 10, 5));

    let with_alpha = Hsla::new(100u8, 50, 25, 200);
    assert_eq!(with_alpha.get(), (100, 50, 25, 200));
    let (stripped, alpha) = with_alpha.discard_alpha();
    assert_eq!(stripped.get(), (100, 50, 25));
    assert_eq!(alpha, 200);
}

#[test]
fn test_hsv_family() {
    let colour = Hsv::new(1u8, 2, 3);
    assert_eq!(colour.get(), (1, 2, 3));
    assert_eq!(colour.map(|c: u8| c + 10).get(), (11, 12, 13));

    let with_alpha = Hsva::new(1u8, 2, 3, 4);
    assert_eq!(with_alpha.get(), (1, 2, 3, 4));
    let (stripped, alpha) = with_alpha.discard_alpha();
    assert_eq!(stripped, Hsv::new(1, 2, 3));
    assert_eq!(alpha, 4);
}

#[test]
fn test_hwb() {
    let colour = Hwb::new(7u8, 8, 9);
    assert_eq!(colour.get(), (7, 8, 9));
    assert_eq!(colour.map(|c: u8| c * 3).get(), (21, 24, 27));
}

#[test]
fn test_lab_family() {
    let colour = CieLab::new(50i16, -20, 30);
    assert_eq!(colour.get(), (50, -20, 30));
    assert_eq!(colour.map(|c: i16| c + 1).get(), (51, -19, 31));

    let with_alpha = CieLaba::new(50i16, -20, 30, 100);
    assert_eq!(with_alpha.get(), (50, -20, 30, 100));
    let (stripped, alpha) = with_alpha.discard_alpha();
    assert_eq!(stripped, CieLab::new(50, -20, 30));
    assert_eq!(alpha, 100);

    let ok = OkLab::new(5u8, 6, 7);
    assert_eq!(ok.get(), (5, 6, 7));
    let (ok_stripped, ok_alpha) = OkLaba::new(5u8, 6, 7, 8).discard_alpha();
    assert_eq!(ok_stripped, ok);
    assert_eq!(ok_alpha, 8);
}

#[test]
fn test_lch_family() {
    let colour = CieLch::new(60u8, 40, 120);
    assert_eq!(colour.get(), (60, 40, 120));
    assert_eq!(colour.map(|c: u8| c / 2).get(), (30, 20, 60));
    assert_eq!(CieLcha::new(60u8, 40, 120, 9).discard_alpha(), colour);
    assert_eq!(CieLcha::new(60u8, 40, 120, 9).get(), (60, 40, 120, 9));

    let ok = OkLch::new(1u8, 2, 3);
    assert_eq!(ok.map(|c: u8| c).get(), (1, 2, 3));
    assert_eq!(OkLcha::new(1u8, 2, 3, 4).discard_alpha(), ok);
}

#[test]
fn test_xyz_family() {
    let colour = CieXyz::new(11u8, 22, 33);
    assert_eq!(colour.get(), (11, 22, 33));

    let with_alpha = CieXyza::new(11u8, 22, 33, 44);
    assert_eq!(with_alpha.get(), (11, 22, 33, 44));
    let (stripped, alpha) = with_alpha.discard_alpha();
    assert_eq!(stripped, colour);
    assert_eq!(alpha, 44);
}

#[test]
fn test_srgba8() {
    let colour = Srgba8::new(0xF0, 0xF8, 0xFF, 0xFF);
    assert_eq!(colour.get(), (0xF0, 0xF8, 0xFF, 0xFF));
    assert_eq!(colour.into_u32(), 0xF0F8FFFF);
    assert_eq!(Srgba8::from_u32(0xF0F8FFFF), colour);
    assert_eq!(colour.to_string(), "#F0F8FFFF");
    assert_eq!(Srgba8::from_u32(colour.into_u32()), colour);
}

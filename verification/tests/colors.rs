use color_picker::colors::{ColorSpace, RgbColor};

#[test]
fn hex_label_of_mixed_color() {
    assert_eq!(RgbColor::new(255, 0, 128).to_hex_string(), "#FF0080");
}

#[test]
fn hex_label_of_black() {
    assert_eq!(RgbColor::new(0, 0, 0).to_hex_string(), "#000000");
}

#[test]
fn hex_label_of_white() {
    assert_eq!(RgbColor::new(255, 255, 255).to_hex_string(), "#FFFFFF");
}

#[test]
fn hex_label_uses_uppercase_digits() {
    assert_eq!(RgbColor::new(0xAB, 0xCD, 0xEF).to_hex_string(), "#ABCDEF");
}

#[test]
fn luminance_is_exact_in_milli_units() {
    // 299*255 + 587*128 + 114*0 = 151381
    assert_eq!(RgbColor::new(255, 128, 0).luminance(), 151381);
    assert_eq!(RgbColor::new(0, 0, 0).luminance(), 0);
    assert_eq!(RgbColor::new(255, 255, 255).luminance(), 255000);
}

#[test]
fn label_text_is_black_over_light_colors() {
    // luminance 128.299 > 128
    assert_eq!(RgbColor::new(129, 128, 128).text_color(), 0x00000000);
    assert_eq!(RgbColor::new(255, 255, 255).text_color(), 0x00000000);
}

#[test]
fn label_text_is_white_over_dark_colors() {
    assert_eq!(RgbColor::new(0, 0, 0).text_color(), 0x00FFFFFF);
    assert_eq!(RgbColor::new(127, 127, 127).text_color(), 0x00FFFFFF);
}

#[test]
fn label_text_boundary_resolves_to_white() {
    // luminance exactly 128: not strictly greater, so white
    assert_eq!(RgbColor::new(128, 128, 128).luminance(), 128000);
    assert_eq!(RgbColor::new(128, 128, 128).text_color(), 0x00FFFFFF);
}

#[test]
fn argb_packing_is_opaque() {
    assert_eq!(RgbColor::new(255, 0, 128).to_argb(), 0xFFFF0080);
    assert_eq!(RgbColor::new(0, 0, 0).to_argb(), 0xFF000000);
    assert_eq!(RgbColor::new(255, 255, 255).to_argb(), 0xFFFFFFFF);
}

#[test]
fn colorref_packing_swaps_byte_order() {
    assert_eq!(RgbColor::new(255, 0, 128).to_colorref(), 0x008000FF);
}

#[test]
fn colorref_unpacking_reads_each_channel() {
    let c = RgbColor::from_colorref(0x008000FF);
    assert_eq!((c.r, c.g, c.b), (255, 0, 128));
}

#[test]
fn colorref_round_trip_preserves_channels() {
    let c = RgbColor::new(17, 203, 99);
    let back = RgbColor::from_colorref(c.to_colorref());
    assert_eq!(back, c);
}

#[test]
fn reported_color_normalizes_each_channel() {
    let rep = RgbColor::new(255, 128, 0).to_reported();
    assert_eq!(rep.red_255, 255);
    assert_eq!(rep.green_255, 128);
    assert_eq!(rep.blue_255, 0);
    let red = rep.red_255 as f64 / 255.0;
    let green = rep.green_255 as f64 / 255.0;
    let blue = rep.blue_255 as f64 / 255.0;
    assert_eq!(red, 1.0);
    assert!((green - 0.502).abs() < 0.0005);
    assert_eq!(blue, 0.0);
}

#[test]
fn reported_alpha_is_fixed_fully_opaque() {
    let rep = RgbColor::new(1, 2, 3).to_reported();
    assert_eq!(rep.alpha_255, 255);
    assert_eq!(rep.alpha_255 as f64 / 255.0, 1.0);
}

#[test]
fn reported_color_space_tag_is_fixed() {
    let rep = RgbColor::new(1, 2, 3).to_reported();
    assert_eq!(rep.color_space, ColorSpace::Srgb);
    assert_eq!(rep.color_space.label(), "sRGB");
}

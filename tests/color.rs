use webrender_backend::color::{
    channels_to_pixel, lookup_color_by_name, lookup_color_by_name_or_hex, parse_hex_color,
    pixel_channels,
};

#[test]
fn hex_white() {
    assert_eq!(lookup_color_by_name_or_hex("#FFFFFF"), Some((255, 255, 255)));
}

#[test]
fn hex_black() {
    assert_eq!(lookup_color_by_name_or_hex("#000000"), Some((0, 0, 0)));
}

#[test]
fn hex_mixed_case_digits() {
    assert_eq!(lookup_color_by_name_or_hex("#1a2B3c"), Some((0x1a, 0x2b, 0x3c)));
    assert_eq!(parse_hex_color("#FF8000"), (255, 128, 0));
}

#[test]
fn hex_trailing_text_ignored() {
    assert_eq!(lookup_color_by_name_or_hex("#0000ffzz"), Some((0, 0, 255)));
}

#[test]
fn name_lookup_ignores_case() {
    assert_eq!(lookup_color_by_name_or_hex("Red"), lookup_color_by_name_or_hex("red"));
    assert_eq!(lookup_color_by_name_or_hex("RED"), Some((255, 0, 0)));
    assert_eq!(lookup_color_by_name_or_hex("Dark Gray"), Some((169, 169, 169)));
    assert_eq!(lookup_color_by_name_or_hex("DarkGray"), Some((169, 169, 169)));
}

#[test]
fn unknown_name_is_none() {
    assert_eq!(lookup_color_by_name_or_hex("no-such-color"), None);
    assert_eq!(lookup_color_by_name_or_hex(""), None);
}

#[test]
fn name_table_is_lower_case() {
    assert_eq!(lookup_color_by_name("white"), Some((255, 255, 255)));
    assert_eq!(lookup_color_by_name("White"), None);
}

#[test]
fn pixel_lanes() {
    assert_eq!(pixel_channels(0x0003_0002_0001), (1, 2, 3));
    assert_eq!(pixel_channels(0xffff_0000_0000_00ff), (255, 0, 0));
    assert_eq!(channels_to_pixel(1, 2, 3), 0x0003_0002_0001);
    assert_eq!(channels_to_pixel(0xffff, 0xffff, 0xffff), 0xffff_ffff_ffff);
}

#[test]
fn pixel_round_trip_all_bytes() {
    for r in 0u16..=255 {
        for g in 0u16..=255 {
            for b in (0u16..=255).step_by(5) {
                assert_eq!(pixel_channels(channels_to_pixel(r, g, b)), (r, g, b));
            }
        }
    }
}

#[test]
fn normalized_round_trip_within_tolerance() {
    for v in 0u16..=255 {
        let pixel = channels_to_pixel(v, 255 - v, v / 2);
        let (r, g, b) = pixel_channels(pixel);
        let (fr, fg, fb) = (r as f32 / 255.0, g as f32 / 255.0, b as f32 / 255.0);
        let back = channels_to_pixel((fr * 255.0).round() as u16, (fg * 255.0).round() as u16, (fb * 255.0).round() as u16);
        assert_eq!(pixel_channels(back), (v, 255 - v, v / 2));
    }
}

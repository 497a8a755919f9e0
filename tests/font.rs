use webrender::api::{FontKey, IdNamespace};
use webrender_backend::font::{
    glyph_run, TextBounds, choose_pixel_size, encode_char, WRFont, family_from_name, font_info, glyph_code, text_extents, weight_class,
    FamilyName, WeightClass, DEFAULT_PIXEL_SIZE, FONT_INVALID_CODE,
};

#[test]
fn generic_families() {
    assert_eq!(family_from_name("Serif"), FamilyName::Serif);
    assert_eq!(family_from_name("Sans Serif"), FamilyName::SansSerif);
    assert_eq!(family_from_name("Monospace"), FamilyName::Monospace);
    assert_eq!(family_from_name("Cursive"), FamilyName::Cursive);
    assert_eq!(family_from_name("Fantasy"), FamilyName::Fantasy);
}

#[test]
fn titled_family() {
    assert_eq!(family_from_name("DejaVu Sans"), FamilyName::Title("DejaVu Sans".to_string()));
    assert_eq!(family_from_name("serif"), FamilyName::Title("serif".to_string()));
}

#[test]
fn weight_classes() {
    assert_eq!(weight_class(100), WeightClass::ExtraLight);
    assert_eq!(weight_class(200), WeightClass::ExtraLight);
    assert_eq!(weight_class(201), WeightClass::Light);
    assert_eq!(weight_class(400), WeightClass::Normal);
    assert_eq!(weight_class(500), WeightClass::SemiBold);
    assert_eq!(weight_class(600), WeightClass::SemiBold);
    assert_eq!(weight_class(700), WeightClass::Bold);
    assert_eq!(weight_class(800), WeightClass::ExtraBold);
    assert_eq!(weight_class(900), WeightClass::UltraBold);
    assert_eq!(weight_class(1000), WeightClass::UltraBold);
}

#[test]
fn pixel_size_choice() {
    assert_eq!(choose_pixel_size(Some(14), 12, Some(10)), 14);
    assert_eq!(choose_pixel_size(None, 12, Some(10)), 12);
    assert_eq!(choose_pixel_size(Some(0), 12, Some(10)), 10);
    assert_eq!(choose_pixel_size(None, 0, None), DEFAULT_PIXEL_SIZE);
    assert_eq!(DEFAULT_PIXEL_SIZE, 9);
}

#[test]
fn metrics_and_extents() {
    let f = font_info(16, 8, 12, 4, 2);
    assert_eq!(f.space_width, 8);
    assert_eq!(f.height, 18);
    let m = text_extents(&f);
    assert_eq!((m.lbearing, m.rbearing, m.width, m.ascent, m.descent), (10, 10, 8, 12, 4));
    let wide = font_info(16, 70000, 12, 4, 0);
    assert_eq!(text_extents(&wide).width, 70000i32 as i16);
}

#[test]
fn glyph_codes() {
    assert_eq!(glyph_code(Some(42)), 42);
    assert_eq!(glyph_code(None), FONT_INVALID_CODE);
    assert_eq!(FONT_INVALID_CODE, 0xFFFF_FFFF);
}

fn dejavu() -> WRFont {
    let backend =
        font_kit::font::Font::from_path("/usr/share/fonts/truetype/dejavu/DejaVuSans.ttf", 0).unwrap();
    let font = font_info(16, 8, 12, 4, 2);
    WRFont { font, font_key: FontKey(IdNamespace(0), 1), font_backend: backend }
}

#[test]
fn encode_char_looks_up_glyphs() {
    let f = dejavu();
    let a = encode_char(&f, 'A' as i32);
    assert_ne!(a, FONT_INVALID_CODE);
    assert_ne!(a, 'A' as u32);
    assert_eq!(Some(a), f.glyph_for_char('A'));
    assert_ne!(encode_char(&f, 'B' as i32), a);
}

#[test]
fn encode_char_rejects_non_scalars() {
    let f = dejavu();
    assert_eq!(encode_char(&f, -1), FONT_INVALID_CODE);
    assert_eq!(encode_char(&f, 0xD800), FONT_INVALID_CODE);
    assert_eq!(encode_char(&f, 0x11_0000), FONT_INVALID_CODE);
}

#[test]
fn glyph_run_plan() {
    let chars = [10u32, 11, 12, 13, 14];
    let b = TextBounds { x: 1, y: 2, width: 30, height: 16 };
    let run = glyph_run(&chars, 1, 4, b, true, 0x00ff, 0xff00);
    assert_eq!(run.glyphs, vec![11, 12, 13]);
    assert_eq!(run.background, Some(0x00ff));
    assert_eq!(run.foreground, 0xff00);
    assert_eq!(run.bounds, b);
    let plain = glyph_run(&chars, 2, 2, b, false, 0x00ff, 0xff00);
    assert!(plain.glyphs.is_empty());
    assert_eq!(plain.background, None);
}

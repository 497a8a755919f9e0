use crate::color::str_eq;
use vstd::prelude::*;

verus! {

#[verifier::external_type_specification]
#[verifier::external_body]
pub struct ExFont(font_kit::font::Font);

#[verifier::external_type_specification]
#[verifier::external_body]
pub struct ExFontKey(webrender::api::FontKey);

/// The host's code for a character that a font has no glyph for.
pub const FONT_INVALID_CODE: u32 = 0xFFFF_FFFF;

/// The pixel size a font is opened at when neither the request nor the
/// window's current font gives one.
pub const DEFAULT_PIXEL_SIZE: i64 = 9;

/// A font family as the font-matching library is asked for it: a generic
/// family, or a family by its own name.
#[derive(Debug, PartialEq, Eq)]
pub enum FamilyName {
    Title(String),
    Serif,
    SansSerif,
    Monospace,
    Cursive,
    Fantasy,
}

/// Whether a family name is one of the host's names for a generic family.
pub open spec fn is_generic_family(name: Seq<char>) -> bool {
    name == "Serif"@ || name == "Sans Serif"@ || name == "Monospace"@ || name == "Cursive"@
        || name == "Fantasy"@
}

/// The family that a font spec's family name asks for: the generic family it
/// names, or else a family of that title.
pub fn family_from_name(name: &str) -> (r: FamilyName)
    ensures
        r is Serif <==> name@ == "Serif"@,
        r is SansSerif <==> name@ == "Sans Serif"@,
        r is Monospace <==> name@ == "Monospace"@,
        r is Cursive <==> name@ == "Cursive"@,
        r is Fantasy <==> name@ == "Fantasy"@,
        r is Title <==> !is_generic_family(name@),
        r is Title ==> r->Title_0@ == name@,
{
    proof {
        reveal_strlit("Serif");
        reveal_strlit("Sans Serif");
        reveal_strlit("Monospace");
        reveal_strlit("Cursive");
        reveal_strlit("Fantasy");
        assert("Serif"@.len() == 5 && "Sans Serif"@.len() == 10 && "Monospace"@.len() == 9);
        assert("Cursive"@.len() == 7 && "Fantasy"@.len() == 7);
        assert("Cursive"@[0] != "Fantasy"@[0]);
    }
    if str_eq(name, "Serif") {
        FamilyName::Serif
    } else if str_eq(name, "Sans Serif") {
        FamilyName::SansSerif
    } else if str_eq(name, "Monospace") {
        FamilyName::Monospace
    } else if str_eq(name, "Cursive") {
        FamilyName::Cursive
    } else if str_eq(name, "Fantasy") {
        FamilyName::Fantasy
    } else {
        FamilyName::Title(name.to_owned())
    }
}

/// The host's weight names, from lightest to heaviest.
#[derive(Clone, Copy, Debug, PartialEq, Eq, Structural)]
pub enum WeightClass {
    ExtraLight,
    Light,
    Normal,
    SemiBold,
    Bold,
    ExtraBold,
    UltraBold,
}

/// The host's weight name for a font weight on the usual scale from 100 to
/// 900, given rounded up to a whole number: each name covers the weights up to
/// its bound, and medium weights are reported as semi-bold.
pub open spec fn weight_class_of(weight: int) -> WeightClass {
    if weight <= 200 {
        WeightClass::ExtraLight
    } else if weight <= 300 {
        WeightClass::Light
    } else if weight <= 400 {
        WeightClass::Normal
    } else if weight <= 600 {
        WeightClass::SemiBold
    } else if weight <= 700 {
        WeightClass::Bold
    } else if weight <= 800 {
        WeightClass::ExtraBold
    } else {
        WeightClass::UltraBold
    }
}

/// Classifies a font weight, given rounded up to a whole number.
pub fn weight_class(weight: i32) -> (r: WeightClass)
    ensures
        r == weight_class_of(weight as int),
{
    if weight <= 200 {
        WeightClass::ExtraLight
    } else if weight <= 300 {
        WeightClass::Light
    } else if weight <= 400 {
        WeightClass::Normal
    } else if weight <= 600 {
        WeightClass::SemiBold
    } else if weight <= 700 {
        WeightClass::Bold
    } else if weight <= 800 {
        WeightClass::ExtraBold
    } else {
        WeightClass::UltraBold
    }
}

/// The pixel size a font is opened at: the size its spec gives, else the size
/// requested; a size of zero falls back to the window's current font, and to
/// the default without one.
pub open spec fn opened_pixel_size(spec_size: Option<i64>, requested: i32, current: Option<i32>) -> int {
    let size = match spec_size {
        Some(s) => s as int,
        None => requested as int,
    };
    if size != 0 {
        size
    } else {
        match current {
            Some(c) => c as int,
            None => DEFAULT_PIXEL_SIZE as int,
        }
    }
}

/// Chooses the pixel size a font is opened at.
pub fn choose_pixel_size(spec_size: Option<i64>, requested: i32, current: Option<i32>) -> (r: i64)
    ensures
        r == opened_pixel_size(spec_size, requested, current),
{
    let size = match spec_size {
        Some(s) => s,
        None => requested as i64,
    };
    if size != 0 {
        size
    } else {
        match current {
            Some(c) => c as i64,
            None => DEFAULT_PIXEL_SIZE,
        }
    }
}

/// The pixel metrics of an open font, as the host reads them.
#[derive(Clone, Copy, Debug, PartialEq, Eq, Structural)]
pub struct FontInfo {
    pub pixel_size: i32,
    pub average_width: i32,
    pub space_width: i32,
    pub ascent: i32,
    pub descent: i32,
    pub height: i32,
}

/// Whether the line height of a font can be held: gap, ascent and descent
/// add up within range.
pub open spec fn font_height_fits(ascent: i32, descent: i32, line_gap: i32) -> bool {
    &&& i32::MIN <= line_gap + ascent <= i32::MAX
    &&& i32::MIN <= line_gap + ascent + descent <= i32::MAX
}

/// The metrics of a font from its pixel size and its scaled average width,
/// ascent, descent and line gap: a space is as wide as the average glyph, and
/// a line is the gap, the ascent and the descent together.
pub fn font_info(pixel_size: i32, average_width: i32, ascent: i32, descent: i32, line_gap: i32) -> (r:
    FontInfo)
    requires
        font_height_fits(ascent, descent, line_gap),
    ensures
        r.pixel_size == pixel_size,
        r.average_width == average_width,
        r.space_width == average_width,
        r.ascent == ascent,
        r.descent == descent,
        r.height == line_gap + ascent + descent,
{
    FontInfo {
        pixel_size,
        average_width,
        space_width: average_width,
        ascent,
        descent,
        height: line_gap + ascent + descent,
    }
}

/// The extents the host is told for a run of text.
#[derive(Clone, Copy, Debug, PartialEq, Eq, Structural)]
pub struct FontMetrics {
    pub lbearing: i16,
    pub rbearing: i16,
    pub width: i16,
    pub ascent: i16,
    pub descent: i16,
}

/// The bearing reported on either side of a run of text.
pub const TEXT_BEARING: i16 = 10;

/// The extents of a run of text in a font: the font's average width, ascent
/// and descent, each cut to sixteen bits, between fixed bearings.
pub fn text_extents(font: &FontInfo) -> (r: FontMetrics)
    ensures
        r.lbearing == TEXT_BEARING,
        r.rbearing == TEXT_BEARING,
        r.width == font.average_width as i16,
        r.ascent == font.ascent as i16,
        r.descent == font.descent as i16,
{
    FontMetrics {
        lbearing: TEXT_BEARING,
        rbearing: TEXT_BEARING,
        width: font.average_width as i16,
        ascent: font.ascent as i16,
        descent: font.descent as i16,
    }
}

/// A rectangle in layout pixels, from its top-left corner.
#[derive(Clone, Copy, Debug, PartialEq, Eq, Structural)]
pub struct TextBounds {
    pub x: i32,
    pub y: i32,
    pub width: i32,
    pub height: i32,
}

/// What drawing a run of glyphs puts into a display list: a background
/// rectangle in the given color where one is asked for, then the glyphs in the
/// foreground color, both over the run's bounds.
#[derive(Debug, PartialEq, Eq)]
pub struct GlyphRun {
    pub bounds: TextBounds,
    pub glyphs: Vec<u32>,
    pub background: Option<u64>,
    pub foreground: u64,
}

/// Plans the drawing of the glyphs from `from` up to `to` of a glyph string.
pub fn glyph_run(
    chars: &[u32],
    from: usize,
    to: usize,
    bounds: TextBounds,
    with_background: bool,
    background: u64,
    foreground: u64,
) -> (r: GlyphRun)
    requires
        from <= to <= chars@.len(),
    ensures
        r.bounds == bounds,
        r.glyphs@ == chars@.subrange(from as int, to as int),
        r.background == (if with_background {
            Some(background)
        } else {
            None
        }),
        r.foreground == foreground,
{
    let mut glyphs: Vec<u32> = Vec::new();
    let mut i: usize = from;
    while i < to
        invariant
            from <= i <= to <= chars@.len(),
            glyphs@ == chars@.subrange(from as int, i as int),
        decreases to - i,
    {
        glyphs.push(chars[i]);
        i = i + 1;
    }
    let background = if with_background {
        Some(background)
    } else {
        None
    };
    GlyphRun { bounds, glyphs, background, foreground }
}

/// A Unicode scalar value: a code point that is not a surrogate.
pub open spec fn is_scalar(v: u32) -> bool {
    v <= 0x10_FFFF && !(0xD800 <= v <= 0xDFFF)
}

/// Relies on `char::from_u32`: the character with the given code, or `None`
/// when the code is not a Unicode scalar value.
#[verifier::external_body]
fn char_from_u32(v: u32) -> (r: Option<char>)
    ensures
        r.is_some() == is_scalar(v),
        r.is_some() ==> r.unwrap() as u32 == v,
{
    char::from_u32(v)
}

/// Relies on font_kit's `Font::glyph_for_char`: the font's glyph index for a
/// character, which is never zero, or `None` where the font has no glyph.
#[verifier::external_body]
fn font_glyph_for_char(font: &font_kit::font::Font, c: char) -> (r: Option<u32>)
    ensures
        r.is_some() ==> r.unwrap() != 0,
{
    font.glyph_for_char(c)
}

/// An open font: the host's metrics, the font's key in the rendering library,
/// and the loaded font that glyphs are looked up in.
pub struct WRFont {
    pub font: FontInfo,
    pub font_key: webrender::api::FontKey,
    pub font_backend: font_kit::font::Font,
}

impl WRFont {
    /// The font's glyph index for a character, never zero; `None` where the
    /// font has no glyph for it.
    pub fn glyph_for_char(&self, character: char) -> (r: Option<u32>)
        ensures
            r.is_some() ==> r.unwrap() != 0,
    {
        font_glyph_for_char(&self.font_backend, character)
    }
}

/// The host's code for the outcome of a glyph lookup: the glyph index, or the
/// invalid code where there is none.
pub fn glyph_code(glyph: Option<u32>) -> (r: u32)
    ensures
        r == match glyph {
            Some(g) => g,
            None => FONT_INVALID_CODE,
        },
{
    match glyph {
        Some(g) => g,
        None => FONT_INVALID_CODE,
    }
}

/// Encodes a character code for the host: a code that is no Unicode scalar
/// value gives the invalid code; for any other the font is asked for a glyph,
/// and the invalid code stands for one it lacks.
pub fn encode_char(font: &WRFont, c: i32) -> (r: u32)
    ensures
        c < 0 ==> r == FONT_INVALID_CODE,
        c >= 0 && !is_scalar(c as u32) ==> r == FONT_INVALID_CODE,
        r != 0,
{
    if c < 0 {
        return FONT_INVALID_CODE;
    }
    let glyph = match char_from_u32(c as u32) {
        Some(ch) => font.glyph_for_char(ch),
        None => None,
    };
    glyph_code(glyph)
}

} // verus!

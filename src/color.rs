use vstd::prelude::*;
use vstd::arithmetic::div_mod::lemma_fundamental_div_mod_converse;
use vstd::string::*;

verus! {

/// The red lane of a packed pixel: its lowest sixteen bits.
pub open spec fn pixel_red(pixel: u64) -> int {
    pixel as int % 0x1_0000
}

/// The green lane of a packed pixel: its second sixteen bits.
pub open spec fn pixel_green(pixel: u64) -> int {
    (pixel as int / 0x1_0000) % 0x1_0000
}

/// The blue lane of a packed pixel: its third sixteen bits.
pub open spec fn pixel_blue(pixel: u64) -> int {
    (pixel as int / 0x1_0000_0000) % 0x1_0000
}

/// The packed pixel with the given red, green and blue lanes.
pub open spec fn packed_pixel(red: u16, green: u16, blue: u16) -> int {
    blue as int * 0x1_0000_0000 + green as int * 0x1_0000 + red as int
}

/// Splits a packed pixel into its red, green and blue lanes.
pub fn pixel_channels(pixel: u64) -> (r: (u16, u16, u16))
    ensures
        r.0 == pixel_red(pixel),
        r.1 == pixel_green(pixel),
        r.2 == pixel_blue(pixel),
{
    let red = (pixel & 0xffff) as u16;
    let green = ((pixel >> 16u64) & 0xffff) as u16;
    let blue = ((pixel >> 32u64) & 0xffff) as u16;
    assert(pixel & 0xffff == pixel % 0x1_0000) by (bit_vector);
    assert((pixel >> 16u64) & 0xffff == (pixel / 0x1_0000) % 0x1_0000) by (bit_vector);
    assert((pixel >> 32u64) & 0xffff == (pixel / 0x1_0000_0000) % 0x1_0000) by (bit_vector);
    (red, green, blue)
}

/// Packs red, green and blue lanes into a pixel; the top sixteen bits stay clear.
pub fn channels_to_pixel(red: u16, green: u16, blue: u16) -> (r: u64)
    ensures
        r == packed_pixel(red, green, blue),
{
    let (r64, g64, b64) = (red as u64, green as u64, blue as u64);
    assert(r64 < 0x1_0000 && g64 < 0x1_0000 && b64 < 0x1_0000);
    assert((b64 << 32u64) | (g64 << 16u64) | r64 == b64 * 0x1_0000_0000 + g64 * 0x1_0000 + r64)
        by (bit_vector)
        requires
            r64 < 0x1_0000 && g64 < 0x1_0000 && b64 < 0x1_0000,
    ;
    (b64 << 32u64) | (g64 << 16u64) | r64
}

/// Packing three lanes and splitting the pixel again gives the same lanes.
pub proof fn lemma_pixel_round_trip(red: u16, green: u16, blue: u16)
    ensures
        packed_pixel(red, green, blue) < 0x1_0000_0000_0000,
        pixel_red(packed_pixel(red, green, blue) as u64) == red,
        pixel_green(packed_pixel(red, green, blue) as u64) == green,
        pixel_blue(packed_pixel(red, green, blue) as u64) == blue,
{
    let (r, g, b) = (red as int, green as int, blue as int);
    let p = packed_pixel(red, green, blue);
    let hi = b * 0x1_0000 + g;
    assert(p == hi * 0x1_0000 + r);
    lemma_fundamental_div_mod_converse(p, 0x1_0000, hi, r);
    lemma_fundamental_div_mod_converse(hi, 0x1_0000, b, g);
    assert(p == b * 0x1_0000_0000 + (g * 0x1_0000 + r));
    lemma_fundamental_div_mod_converse(p, 0x1_0000_0000, b, g * 0x1_0000 + r);
    lemma_fundamental_div_mod_converse(b, 0x1_0000, 0, b);
}

/// An ASCII hexadecimal digit, in either case.
pub open spec fn is_hex_digit(c: char) -> bool {
    ('0' <= c && c <= '9') || ('a' <= c && c <= 'f') || ('A' <= c && c <= 'F')
}

/// The value of a hexadecimal digit.
pub open spec fn hex_value(c: char) -> int {
    if '0' <= c && c <= '9' {
        c as int - '0' as int
    } else if 'a' <= c && c <= 'f' {
        c as int - 'a' as int + 10
    } else {
        c as int - 'A' as int + 10
    }
}

/// The byte written by two hexadecimal digits, high digit first.
pub open spec fn hex_byte(s: Seq<char>, at: int) -> int {
    16 * hex_value(s[at]) + hex_value(s[at + 1])
}

/// A color written `#RRGGBB`: a hash sign and six hexadecimal digits, after
/// which anything may follow.
pub open spec fn is_hex_color(s: Seq<char>) -> bool {
    &&& s.len() >= 7
    &&& s[0] == '#'
    &&& forall|i: int| 1 <= i < 7 ==> is_hex_digit(#[trigger] s[i])
}

/// The red, green and blue bytes of a color written `#RRGGBB`.
pub open spec fn hex_color(s: Seq<char>) -> (u8, u8, u8) {
    (hex_byte(s, 1) as u8, hex_byte(s, 3) as u8, hex_byte(s, 5) as u8)
}

/// A color token that is meant as hexadecimal: it starts with a hash sign.
pub open spec fn starts_with_hash(s: Seq<char>) -> bool {
    s.len() > 0 && s[0] == '#'
}

/// What the standard library's lower-casing makes of a string.
pub uninterp spec fn lower_of(s: Seq<char>) -> Seq<char>;

/// Relies on `str::to_lowercase`: the lower-case form of a string, which
/// depends on its characters alone.
#[verifier::external_body]
fn lowercase(s: &str) -> (r: String)
    ensures
        r@ == lower_of(s@),
{
    s.to_lowercase()
}

fn hex_digit_value(c: char) -> (r: u8)
    requires
        is_hex_digit(c),
    ensures
        r == hex_value(c),
{
    if '0' <= c && c <= '9' {
        (c as u32 - '0' as u32) as u8
    } else if 'a' <= c && c <= 'f' {
        (c as u32 - 'a' as u32 + 10) as u8
    } else {
        (c as u32 - 'A' as u32 + 10) as u8
    }
}

fn hex_byte_at(s: &str, at: usize) -> (r: u8)
    requires
        at <= 5,
        at + 1 < s@.len(),
        is_hex_digit(s@[at as int]),
        is_hex_digit(s@[at + 1]),
    ensures
        r == hex_byte(s@, at as int),
{
    let high = hex_digit_value(s.get_char(at));
    let low = hex_digit_value(s.get_char(at + 1));
    16 * high + low
}

/// Reads a color written `#RRGGBB`.
pub fn parse_hex_color(color_string: &str) -> (r: (u8, u8, u8))
    requires
        is_hex_color(color_string@),
    ensures
        r == hex_color(color_string@),
{
    let red = hex_byte_at(color_string, 1);
    let green = hex_byte_at(color_string, 3);
    let blue = hex_byte_at(color_string, 5);
    (red, green, blue)
}

pub(crate) fn str_eq(a: &str, b: &str) -> (r: bool)
    ensures
        r == (a@ == b@),
{
    let n = a.unicode_len();
    if n != b.unicode_len() {
        return false;
    }
    let mut i: usize = 0;
    while i < n
        invariant
            n == a@.len(),
            n == b@.len(),
            i <= n,
            forall|j: int| 0 <= j < i ==> a@[j] == b@[j],
        decreases n - i,
    {
        if a.get_char(i) != b.get_char(i) {
            return false;
        }
        i = i + 1;
    }
    assert(a@ =~= b@);
    true
}

/// Resolves a color token: `#RRGGBB` is read as three hexadecimal bytes; any
/// other token is a color name, matched in lower case against the built-in
/// table. A token that starts with a hash sign must be well formed.
pub fn lookup_color_by_name_or_hex(color_string: &str) -> (r: Option<(u8, u8, u8)>)
    requires
        starts_with_hash(color_string@) ==> is_hex_color(color_string@),
    ensures
        starts_with_hash(color_string@) ==> r == Some(hex_color(color_string@)),
        !starts_with_hash(color_string@) ==> r == named_color(lower_of(color_string@)),
{
    if color_string.unicode_len() > 0 && color_string.get_char(0) == '#' {
        Some(parse_hex_color(color_string))
    } else {
        let lowered = lowercase(color_string);
        lookup_color_by_name(lowered.as_str())
    }
}

/// The built-in table of color names, all in lower case, with their red,
/// green and blue values.
pub open spec fn named_color(name: Seq<char>) -> Option<(u8, u8, u8)> {
    if name == "white"@ {
        Some((255, 255, 255))
    } else if name == "black"@ {
        Some((0, 0, 0))
    } else if name == "red"@ {
        Some((255, 0, 0))
    } else if name == "green"@ {
        Some((0, 255, 0))
    } else if name == "blue"@ {
        Some((0, 0, 255))
    } else if name == "yellow"@ {
        Some((255, 255, 0))
    } else if name == "cyan"@ {
        Some((0, 255, 255))
    } else if name == "magenta"@ {
        Some((255, 0, 255))
    } else if name == "gray"@ {
        Some((190, 190, 190))
    } else if name == "grey"@ {
        Some((190, 190, 190))
    } else if name == "dark gray"@ {
        Some((169, 169, 169))
    } else if name == "darkgray"@ {
        Some((169, 169, 169))
    } else if name == "light gray"@ {
        Some((211, 211, 211))
    } else if name == "lightgray"@ {
        Some((211, 211, 211))
    } else if name == "dim gray"@ {
        Some((105, 105, 105))
    } else if name == "dimgray"@ {
        Some((105, 105, 105))
    } else if name == "orange"@ {
        Some((255, 165, 0))
    } else if name == "dark orange"@ {
        Some((255, 140, 0))
    } else if name == "darkorange"@ {
        Some((255, 140, 0))
    } else if name == "pink"@ {
        Some((255, 192, 203))
    } else if name == "hot pink"@ {
        Some((255, 105, 180))
    } else if name == "hotpink"@ {
        Some((255, 105, 180))
    } else if name == "deep pink"@ {
        Some((255, 20, 147))
    } else if name == "deeppink"@ {
        Some((255, 20, 147))
    } else if name == "purple"@ {
        Some((160, 32, 240))
    } else if name == "violet"@ {
        Some((238, 130, 238))
    } else if name == "maroon"@ {
        Some((176, 48, 96))
    } else if name == "brown"@ {
        Some((165, 42, 42))
    } else if name == "gold"@ {
        Some((255, 215, 0))
    } else if name == "navy"@ {
        Some((0, 0, 128))
    } else if name == "navy blue"@ {
        Some((0, 0, 128))
    } else if name == "navyblue"@ {
        Some((0, 0, 128))
    } else if name == "sky blue"@ {
        Some((135, 206, 235))
    } else if name == "skyblue"@ {
        Some((135, 206, 235))
    } else if name == "light blue"@ {
        Some((173, 216, 230))
    } else if name == "lightblue"@ {
        Some((173, 216, 230))
    } else if name == "steel blue"@ {
        Some((70, 130, 180))
    } else if name == "steelblue"@ {
        Some((70, 130, 180))
    } else if name == "royal blue"@ {
        Some((65, 105, 225))
    } else if name == "royalblue"@ {
        Some((65, 105, 225))
    } else if name == "dark blue"@ {
        Some((0, 0, 139))
    } else if name == "darkblue"@ {
        Some((0, 0, 139))
    } else if name == "midnight blue"@ {
        Some((25, 25, 112))
    } else if name == "midnightblue"@ {
        Some((25, 25, 112))
    } else if name == "cornflower blue"@ {
        Some((100, 149, 237))
    } else if name == "cornflowerblue"@ {
        Some((100, 149, 237))
    } else if name == "forest green"@ {
        Some((34, 139, 34))
    } else if name == "forestgreen"@ {
        Some((34, 139, 34))
    } else if name == "dark green"@ {
        Some((0, 100, 0))
    } else if name == "darkgreen"@ {
        Some((0, 100, 0))
    } else if name == "lime green"@ {
        Some((50, 205, 50))
    } else if name == "limegreen"@ {
        Some((50, 205, 50))
    } else if name == "light green"@ {
        Some((144, 238, 144))
    } else if name == "lightgreen"@ {
        Some((144, 238, 144))
    } else if name == "sea green"@ {
        Some((46, 139, 87))
    } else if name == "seagreen"@ {
        Some((46, 139, 87))
    } else if name == "olive drab"@ {
        Some((107, 142, 35))
    } else if name == "olivedrab"@ {
        Some((107, 142, 35))
    } else if name == "dark red"@ {
        Some((139, 0, 0))
    } else if name == "darkred"@ {
        Some((139, 0, 0))
    } else if name == "firebrick"@ {
        Some((178, 34, 34))
    } else if name == "indian red"@ {
        Some((205, 92, 92))
    } else if name == "indianred"@ {
        Some((205, 92, 92))
    } else if name == "tomato"@ {
        Some((255, 99, 71))
    } else if name == "coral"@ {
        Some((255, 127, 80))
    } else if name == "salmon"@ {
        Some((250, 128, 114))
    } else if name == "khaki"@ {
        Some((240, 230, 140))
    } else if name == "beige"@ {
        Some((245, 245, 220))
    } else if name == "ivory"@ {
        Some((255, 255, 240))
    } else if name == "wheat"@ {
        Some((245, 222, 179))
    } else if name == "tan"@ {
        Some((210, 180, 140))
    } else if name == "chocolate"@ {
        Some((210, 105, 30))
    } else if name == "sienna"@ {
        Some((160, 82, 45))
    } else if name == "peru"@ {
        Some((205, 133, 63))
    } else if name == "turquoise"@ {
        Some((64, 224, 208))
    } else if name == "aquamarine"@ {
        Some((127, 255, 212))
    } else if name == "dark cyan"@ {
        Some((0, 139, 139))
    } else if name == "darkcyan"@ {
        Some((0, 139, 139))
    } else if name == "dark magenta"@ {
        Some((139, 0, 139))
    } else if name == "darkmagenta"@ {
        Some((139, 0, 139))
    } else if name == "orchid"@ {
        Some((218, 112, 214))
    } else if name == "plum"@ {
        Some((221, 160, 221))
    } else if name == "lavender"@ {
        Some((230, 230, 250))
    } else if name == "snow"@ {
        Some((255, 250, 250))
    } else if name == "linen"@ {
        Some((250, 240, 230))
    } else if name == "azure"@ {
        Some((240, 255, 255))
    } else if name == "honeydew"@ {
        Some((240, 255, 240))
    } else if name == "gainsboro"@ {
        Some((220, 220, 220))
    } else if name == "white smoke"@ {
        Some((245, 245, 245))
    } else if name == "whitesmoke"@ {
        Some((245, 245, 245))
    } else if name == "ghost white"@ {
        Some((248, 248, 255))
    } else if name == "ghostwhite"@ {
        Some((248, 248, 255))
    } else if name == "slate gray"@ {
        Some((112, 128, 144))
    } else if name == "slategray"@ {
        Some((112, 128, 144))
    } else {
        None
    }
}

/// Looks a lower-case color name up in the built-in table.
pub fn lookup_color_by_name(name: &str) -> (r: Option<(u8, u8, u8)>)
    ensures
        r == named_color(name@),
{
    if str_eq(name, "white") {
        Some((255, 255, 255))
    } else if str_eq(name, "black") {
        Some((0, 0, 0))
    } else if str_eq(name, "red") {
        Some((255, 0, 0))
    } else if str_eq(name, "green") {
        Some((0, 255, 0))
    } else if str_eq(name, "blue") {
        Some((0, 0, 255))
    } else if str_eq(name, "yellow") {
        Some((255, 255, 0))
    } else if str_eq(name, "cyan") {
        Some((0, 255, 255))
    } else if str_eq(name, "magenta") {
        Some((255, 0, 255))
    } else if str_eq(name, "gray") {
        Some((190, 190, 190))
    } else if str_eq(name, "grey") {
        Some((190, 190, 190))
    } else if str_eq(name, "dark gray") {
        Some((169, 169, 169))
    } else if str_eq(name, "darkgray") {
        Some((169, 169, 169))
    } else if str_eq(name, "light gray") {
        Some((211, 211, 211))
    } else if str_eq(name, "lightgray") {
        Some((211, 211, 211))
    } else if str_eq(name, "dim gray") {
        Some((105, 105, 105))
    } else if str_eq(name, "dimgray") {
        Some((105, 105, 105))
    } else if str_eq(name, "orange") {
        Some((255, 165, 0))
    } else if str_eq(name, "dark orange") {
        Some((255, 140, 0))
    } else if str_eq(name, "darkorange") {
        Some((255, 140, 0))
    } else if str_eq(name, "pink") {
        Some((255, 192, 203))
    } else if str_eq(name, "hot pink") {
        Some((255, 105, 180))
    } else if str_eq(name, "hotpink") {
        Some((255, 105, 180))
    } else if str_eq(name, "deep pink") {
        Some((255, 20, 147))
    } else if str_eq(name, "deeppink") {
        Some((255, 20, 147))
    } else if str_eq(name, "purple") {
        Some((160, 32, 240))
    } else if str_eq(name, "violet") {
        Some((238, 130, 238))
    } else if str_eq(name, "maroon") {
        Some((176, 48, 96))
    } else if str_eq(name, "brown") {
        Some((165, 42, 42))
    } else if str_eq(name, "gold") {
        Some((255, 215, 0))
    } else if str_eq(name, "navy") {
        Some((0, 0, 128))
    } else if str_eq(name, "navy blue") {
        Some((0, 0, 128))
    } else if str_eq(name, "navyblue") {
        Some((0, 0, 128))
    } else if str_eq(name, "sky blue") {
        Some((135, 206, 235))
    } else if str_eq(name, "skyblue") {
        Some((135, 206, 235))
    } else if str_eq(name, "light blue") {
        Some((173, 216, 230))
    } else if str_eq(name, "lightblue") {
        Some((173, 216, 230))
    } else if str_eq(name, "steel blue") {
        Some((70, 130, 180))
    } else if str_eq(name, "steelblue") {
        Some((70, 130, 180))
    } else if str_eq(name, "royal blue") {
        Some((65, 105, 225))
    } else if str_eq(name, "royalblue") {
        Some((65, 105, 225))
    } else if str_eq(name, "dark blue") {
        Some((0, 0, 139))
    } else if str_eq(name, "darkblue") {
        Some((0, 0, 139))
    } else if str_eq(name, "midnight blue") {
        Some((25, 25, 112))
    } else if str_eq(name, "midnightblue") {
        Some((25, 25, 112))
    } else if str_eq(name, "cornflower blue") {
        Some((100, 149, 237))
    } else if str_eq(name, "cornflowerblue") {
        Some((100, 149, 237))
    } else if str_eq(name, "forest green") {
        Some((34, 139, 34))
    } else if str_eq(name, "forestgreen") {
        Some((34, 139, 34))
    } else if str_eq(name, "dark green") {
        Some((0, 100, 0))
    } else if str_eq(name, "darkgreen") {
        Some((0, 100, 0))
    } else if str_eq(name, "lime green") {
        Some((50, 205, 50))
    } else if str_eq(name, "limegreen") {
        Some((50, 205, 50))
    } else if str_eq(name, "light green") {
        Some((144, 238, 144))
    } else if str_eq(name, "lightgreen") {
        Some((144, 238, 144))
    } else if str_eq(name, "sea green") {
        Some((46, 139, 87))
    } else if str_eq(name, "seagreen") {
        Some((46, 139, 87))
    } else if str_eq(name, "olive drab") {
        Some((107, 142, 35))
    } else if str_eq(name, "olivedrab") {
        Some((107, 142, 35))
    } else if str_eq(name, "dark red") {
        Some((139, 0, 0))
    } else if str_eq(name, "darkred") {
        Some((139, 0, 0))
    } else if str_eq(name, "firebrick") {
        Some((178, 34, 34))
    } else if str_eq(name, "indian red") {
        Some((205, 92, 92))
    } else if str_eq(name, "indianred") {
        Some((205, 92, 92))
    } else if str_eq(name, "tomato") {
        Some((255, 99, 71))
    } else if str_eq(name, "coral") {
        Some((255, 127, 80))
    } else if str_eq(name, "salmon") {
        Some((250, 128, 114))
    } else if str_eq(name, "khaki") {
        Some((240, 230, 140))
    } else if str_eq(name, "beige") {
        Some((245, 245, 220))
    } else if str_eq(name, "ivory") {
        Some((255, 255, 240))
    } else if str_eq(name, "wheat") {
        Some((245, 222, 179))
    } else if str_eq(name, "tan") {
        Some((210, 180, 140))
    } else if str_eq(name, "chocolate") {
        Some((210, 105, 30))
    } else if str_eq(name, "sienna") {
        Some((160, 82, 45))
    } else if str_eq(name, "peru") {
        Some((205, 133, 63))
    } else if str_eq(name, "turquoise") {
        Some((64, 224, 208))
    } else if str_eq(name, "aquamarine") {
        Some((127, 255, 212))
    } else if str_eq(name, "dark cyan") {
        Some((0, 139, 139))
    } else if str_eq(name, "darkcyan") {
        Some((0, 139, 139))
    } else if str_eq(name, "dark magenta") {
        Some((139, 0, 139))
    } else if str_eq(name, "darkmagenta") {
        Some((139, 0, 139))
    } else if str_eq(name, "orchid") {
        Some((218, 112, 214))
    } else if str_eq(name, "plum") {
        Some((221, 160, 221))
    } else if str_eq(name, "lavender") {
        Some((230, 230, 250))
    } else if str_eq(name, "snow") {
        Some((255, 250, 250))
    } else if str_eq(name, "linen") {
        Some((250, 240, 230))
    } else if str_eq(name, "azure") {
        Some((240, 255, 255))
    } else if str_eq(name, "honeydew") {
        Some((240, 255, 240))
    } else if str_eq(name, "gainsboro") {
        Some((220, 220, 220))
    } else if str_eq(name, "white smoke") {
        Some((245, 245, 245))
    } else if str_eq(name, "whitesmoke") {
        Some((245, 245, 245))
    } else if str_eq(name, "ghost white") {
        Some((248, 248, 255))
    } else if str_eq(name, "ghostwhite") {
        Some((248, 248, 255))
    } else if str_eq(name, "slate gray") {
        Some((112, 128, 144))
    } else if str_eq(name, "slategray") {
        Some((112, 128, 144))
    } else {
        None
    }
}

} // verus!

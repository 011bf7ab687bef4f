//! The terminal's colours: the xterm 256-colour palette and the packing of
//! a cell colour into a window-system colour value.
use vstd::prelude::*;

verus! {

/// A cell colour as the terminal state reports it.
#[derive(Clone, Copy, Debug, PartialEq, Eq, Structural)]
pub enum TermColor {
    /// The terminal's default colour for the role (foreground or background).
    Default,
    /// An entry of the 256-colour palette.
    Idx(u8),
    /// A direct colour (red, green, blue).
    Rgb(u8, u8, u8),
}

/// The sixteen basic ANSI colours, normal then bright.
pub open spec fn basic_color(index: int) -> (u8, u8, u8) {
    if index == 0 { (0, 0, 0) }
    else if index == 1 { (205, 49, 49) }
    else if index == 2 { (13, 188, 121) }
    else if index == 3 { (229, 229, 16) }
    else if index == 4 { (36, 114, 200) }
    else if index == 5 { (188, 63, 188) }
    else if index == 6 { (17, 168, 205) }
    else if index == 7 { (229, 229, 229) }
    else if index == 8 { (102, 102, 102) }
    else if index == 9 { (241, 76, 76) }
    else if index == 10 { (35, 209, 139) }
    else if index == 11 { (245, 245, 67) }
    else if index == 12 { (59, 142, 234) }
    else if index == 13 { (214, 112, 214) }
    else if index == 14 { (41, 184, 219) }
    else { (255, 255, 255) }
}

/// Intensity of one axis of the 6x6x6 colour cube.
pub open spec fn cube_level(step: int) -> int {
    if step == 0 { 0 } else { 55 + step * 40 }
}

/// The xterm 256-colour palette: 16 basic colours, a 6x6x6 colour cube
/// (16..=231) and a 24-step grey ramp (232..=255).
pub open spec fn palette_color(index: u8) -> (u8, u8, u8) {
    if index < 16 {
        basic_color(index as int)
    } else if index >= 232 {
        let v = (8 + (index - 232) * 10) as u8;
        (v, v, v)
    } else {
        let n = index - 16;
        (cube_level(n / 36) as u8, cube_level((n / 6) % 6) as u8, cube_level(n % 6) as u8)
    }
}

fn level(step: u8) -> (v: u8)
    requires
        step < 6,
    ensures
        v == cube_level(step as int),
{
    if step == 0 { 0 } else { 55 + step * 40 }
}

/// The red, green and blue components of palette entry `index`.
pub fn ansi_palette(index: u8) -> (rgb: (u8, u8, u8))
    ensures
        rgb == palette_color(index),
{
    if index < 16 {
        return match index {
            0 => (0, 0, 0),
            1 => (205, 49, 49),
            2 => (13, 188, 121),
            3 => (229, 229, 16),
            4 => (36, 114, 200),
            5 => (188, 63, 188),
            6 => (17, 168, 205),
            7 => (229, 229, 229),
            8 => (102, 102, 102),
            9 => (241, 76, 76),
            10 => (35, 209, 139),
            11 => (245, 245, 67),
            12 => (59, 142, 234),
            13 => (214, 112, 214),
            14 => (41, 184, 219),
            _ => (255, 255, 255),
        };
    }
    if index >= 232 {
        let v = 8 + (index - 232) * 10;
        return (v, v, v);
    }
    let n = index - 16;
    (level(n / 36), level((n / 6) % 6), level(n % 6))
}

/// A window-system colour value: red in the low byte, then green, then blue.
pub open spec fn colorref(rgb: (u8, u8, u8)) -> u32 {
    (rgb.0 as int + rgb.1 as int * 0x100 + rgb.2 as int * 0x10000) as u32
}

/// The components a cell colour stands for; the default colour is light grey
/// for text and black for backgrounds.
pub open spec fn color_rgb(color: TermColor, foreground: bool) -> (u8, u8, u8) {
    match color {
        TermColor::Default => if foreground { (230, 230, 230) } else { (0, 0, 0) },
        TermColor::Rgb(r, g, b) => (r, g, b),
        TermColor::Idx(index) => palette_color(index),
    }
}

/// The window-system colour value of a cell colour in the given role.
pub open spec fn terminal_color_value(color: TermColor, foreground: bool) -> u32 {
    colorref(color_rgb(color, foreground))
}

/// Packs a cell colour in the given role into a window-system colour value.
pub fn terminal_color(color: TermColor, foreground: bool) -> (value: u32)
    ensures
        value == terminal_color_value(color, foreground),
{
    let (r, g, b) = match color {
        TermColor::Default => if foreground { (230u8, 230u8, 230u8) } else { (0u8, 0u8, 0u8) },
        TermColor::Rgb(r, g, b) => (r, g, b),
        TermColor::Idx(index) => ansi_palette(index),
    };
    let value: u32 = r as u32 | ((g as u32) << 8) | ((b as u32) << 16);
    assert(value == r as u32 + g as u32 * 0x100 + b as u32 * 0x10000) by (bit_vector)
        requires
            value == r as u32 | ((g as u32) << 8) | ((b as u32) << 16),
    ;
    value
}

/// The sixteen basic colours are the fixed table: black, red, green,
/// yellow, blue, magenta, cyan and white, then their bright forms.
pub proof fn basic_palette_table()
    ensures
        palette_color(0) == (0u8, 0u8, 0u8),
        palette_color(1) == (205u8, 49u8, 49u8),
        palette_color(2) == (13u8, 188u8, 121u8),
        palette_color(3) == (229u8, 229u8, 16u8),
        palette_color(4) == (36u8, 114u8, 200u8),
        palette_color(5) == (188u8, 63u8, 188u8),
        palette_color(6) == (17u8, 168u8, 205u8),
        palette_color(7) == (229u8, 229u8, 229u8),
        palette_color(8) == (102u8, 102u8, 102u8),
        palette_color(9) == (241u8, 76u8, 76u8),
        palette_color(10) == (35u8, 209u8, 139u8),
        palette_color(11) == (245u8, 245u8, 67u8),
        palette_color(12) == (59u8, 142u8, 234u8),
        palette_color(13) == (214u8, 112u8, 214u8),
        palette_color(14) == (41u8, 184u8, 219u8),
        palette_color(15) == (255u8, 255u8, 255u8),
{
}

/// A colour's value packs red in the low byte, green in the next and blue
/// in the third: a direct colour gives the same value in either role, the
/// default colour is light grey (230, 230, 230) for text and black for
/// backgrounds, and a palette entry gives the same value in either role.
pub proof fn colour_value_layout(r: u8, g: u8, b: u8, index: u8, foreground: bool)
    ensures
        terminal_color_value(TermColor::Rgb(r, g, b), foreground) == r as int + 256 * g as int + 65536 * b as int,
        terminal_color_value(TermColor::Default, true) == 0x00E6E6E6,
        terminal_color_value(TermColor::Default, false) == 0,
        terminal_color_value(TermColor::Idx(index), true) == terminal_color_value(TermColor::Idx(index), false),
        terminal_color_value(TermColor::Idx(index), foreground) < 0x0100_0000,
{
}

/// Palette entries 16..=231 form a colour cube: entry `16 + 36 r + 6 g + b`
/// has red, green and blue at cube steps `r`, `g` and `b`.
pub proof fn palette_cube(r: int, g: int, b: int)
    requires
        0 <= r < 6,
        0 <= g < 6,
        0 <= b < 6,
    ensures
        palette_color((16 + 36 * r + 6 * g + b) as u8) == (
            cube_level(r) as u8,
            cube_level(g) as u8,
            cube_level(b) as u8,
        ),
{
    let n = 36 * r + 6 * g + b;
    assert(n / 36 == r && (n / 6) % 6 == g && n % 6 == b) by (nonlinear_arith)
        requires
            n == 36 * r + 6 * g + b,
            0 <= r < 6,
            0 <= g < 6,
            0 <= b < 6,
    ;
}

/// Palette entries 232..=255 are greys that get strictly lighter with the
/// index.
pub proof fn palette_grey_ramp(i: u8, j: u8)
    requires
        232 <= i < j,
    ensures
        palette_color(i).0 == palette_color(i).1 == palette_color(i).2,
        palette_color(i).0 < palette_color(j).0,
{
}

} // verus!

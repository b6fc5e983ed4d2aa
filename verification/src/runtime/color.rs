//! Colors.

use vstd::prelude::*;

verus! {

/// A color with red, green, blue and alpha channels.
#[derive(Debug, Clone, Copy, PartialEq, Eq, Structural)]
pub struct Color {
    pub r: u8,
    pub g: u8,
    pub b: u8,
    pub a: u8,
}

/// The color as CEF has it: `0xAARRGGBB`.
pub open spec fn cef_color(color: Color) -> int {
    color.a * 0x100_0000 + color.r * 0x1_0000 + color.g * 0x100 + color.b
}

/// The color as CEF has it.
pub fn rgba_to_cef_color(color: Color) -> (result: u32)
    ensures
        result == cef_color(color),
{
    let a: u32 = color.a as u32;
    let r: u32 = color.r as u32;
    let g: u32 = color.g as u32;
    let b: u32 = color.b as u32;
    assert((a << 24) | (r << 16) | (g << 8) | b == a * 0x100_0000 + r * 0x1_0000 + g * 0x100 + b)
        by (bit_vector)
        requires
            a < 256,
            r < 256,
            g < 256,
            b < 256,
    ;
    (a << 24) | (r << 16) | (g << 8) | b
}

/// Different colors are different to CEF.
pub proof fn lemma_cef_colors_are_distinct(first: Color, second: Color)
    ensures
        cef_color(first) == cef_color(second) <==> first == second,
{
}

/// CEF has the alpha channel of a color in its highest byte, then red, green and blue, each
/// in a byte of its own.
pub proof fn lemma_channels_are_bytes(color: Color, result: u32)
    requires
        call_ensures(rgba_to_cef_color, (color,), result),
    ensures
        result / 0x100_0000 == color.a,
        result / 0x1_0000 % 0x100 == color.r,
        result / 0x100 % 0x100 == color.g,
        result % 0x100 == color.b,
{
}

} // verus!

//! Colors and their translation to the foreign four-channel form.

use vstd::prelude::*;

verus! {

/// A color as callers give it: opaque RGB, or RGBA with explicit alpha.
#[derive(PartialEq, Eq, Structural, Clone, Copy, Debug)]
pub enum Color {
    RGB(u8, u8, u8),
    RGBA(u8, u8, u8, u8),
}

/// The foreign library's four-channel color struct.
#[derive(PartialEq, Eq, Structural, Clone, Copy, Debug)]
pub struct RawColor {
    pub r: u8,
    pub g: u8,
    pub b: u8,
    pub a: u8,
}

/// The translation performed by [`color_to_c_color`]: the channels pass
/// through and the alpha becomes explicit, 255 for RGB.
pub open spec fn spec_c_color(color: Color) -> RawColor {
    match color {
        Color::RGB(r, g, b) => RawColor { r, g, b, a: 255 },
        Color::RGBA(r, g, b, a) => RawColor { r, g, b, a },
    }
}

/// Translate a color to the foreign four-channel form.
///
/// Pure and total: an RGB color becomes fully opaque (alpha 255), an RGBA
/// color keeps its alpha.
pub fn color_to_c_color(color: Color) -> (c: RawColor)
    ensures
        c == spec_c_color(color),
{
    match color {
        Color::RGB(r, g, b) => RawColor { r, g, b, a: 255 },
        Color::RGBA(r, g, b, a) => RawColor { r, g, b, a },
    }
}

} // verus!

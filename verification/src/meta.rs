//! Visual metadata: colors and icons.

use vstd::prelude::*;

verus! {

/// 24-bit RGB color, used for language colors and icon tints.
#[derive(Debug, Clone, Copy, PartialEq, Eq, Hash, Structural)]
pub struct Color {
    pub r: u8,
    pub g: u8,
    pub b: u8,
}

impl Color {
    pub fn rgb(r: u8, g: u8, b: u8) -> (c: Self)
        ensures
            c.r == r && c.g == g && c.b == b,
    {
        Self { r, g, b }
    }
}

/// A glyph (typically a Nerd Font codepoint) plus an optional tint.
#[derive(Debug, Clone, Copy, PartialEq, Eq)]
pub struct Icon {
    pub glyph: char,
    pub color: Option<Color>,
}

impl Icon {
    /// An untinted icon.
    pub fn new(glyph: char) -> (i: Self)
        ensures
            i.glyph == glyph && i.color == None::<Color>,
    {
        Self { glyph, color: None }
    }

    /// An icon drawn in `color`.
    pub fn tinted(glyph: char, color: Color) -> (i: Self)
        ensures
            i.glyph == glyph && i.color == Some(color),
    {
        Self { glyph, color: Some(color) }
    }
}

} // verus!

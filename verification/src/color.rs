use vstd::prelude::*;

verus! {

/// An 8-bit per channel RGB color.
#[derive(Clone, Copy, Debug, PartialEq, Eq)]
pub struct Color {
    pub r: u8,
    pub g: u8,
    pub b: u8,
}

impl Color {
    pub fn new(r: u8, g: u8, b: u8) -> (c: Color)
        ensures
            c == (Color { r, g, b }),
    {
        Color { r, g, b }
    }
}

/// A 16-bit VRAM pixel (5-5-5 color and the mask bit), as stored.
#[derive(Clone, Copy, Debug, PartialEq, Eq)]
pub struct PackedColor {
    pub color: u16,
}

impl PackedColor {
    pub fn new(color: u16) -> (c: PackedColor)
        ensures
            c.color == color,
    {
        PackedColor { color }
    }

    /// The two pixels held in a 32-bit word: the low halfword first.
    pub fn from_x2(value: u32) -> (r: [PackedColor; 2])
        ensures
            r@.len() == 2,
            r@[0].color == value as u16,
            r@[1].color == (value >> 16u32) as u16,
    {
        [PackedColor { color: value as u16 }, PackedColor { color: (value >> 16u32) as u16 }]
    }
}

} // verus!

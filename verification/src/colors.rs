//! Colours in RGBA8 and their packing for the graphics pipeline.

use vstd::prelude::*;

verus! {

/// Preset colours, turned into a `Color` by `as_color`.
pub enum Colors {
    /// R: 0, G: 0, B: 0, A: 255
    BLACK,
    /// R: 255, G: 0, B: 0, A: 255
    RED,
    /// R: 0, G: 255, B: 0, A: 255
    GREEN,
    /// R: 0, G: 0, B: 255, A: 255
    BLUE,
    /// R: 255, G: 255, B: 0, A: 255
    YELLOW,
    /// R: 255, G: 0, B: 255, A: 255
    MAGENTA,
    /// R: 0, G: 255, B: 255, A: 255
    CYAN,
    /// R: 255, G: 255, B: 255, A: 255
    WHITE,
}

/// A colour in RGBA8.
#[derive(Clone, Copy, Debug)]
pub struct Color {
    r: u8,
    g: u8,
    b: u8,
    a: u8,
}

/// A colour as contracts see it.
pub struct ColorView {
    pub r: u8,
    pub g: u8,
    pub b: u8,
    pub a: u8,
}

impl View for Color {
    type V = ColorView;

    closed spec fn view(&self) -> ColorView {
        ColorView { r: self.r, g: self.g, b: self.b, a: self.a }
    }
}

impl ColorView {
    /// The colour as one number: alpha in the top byte, then blue, green,
    /// and red in the lowest byte.
    pub open spec fn abgr(self) -> nat {
        (self.a * 0x100_0000 + self.b * 0x1_0000 + self.g * 0x100 + self.r) as nat
    }
}

impl Colors {
    /// The channel values of a preset.
    pub open spec fn spec_as_color(self) -> ColorView {
        match self {
            Colors::BLACK => ColorView { r: 0, g: 0, b: 0, a: 255 },
            Colors::RED => ColorView { r: 255, g: 0, b: 0, a: 255 },
            Colors::GREEN => ColorView { r: 0, g: 255, b: 0, a: 255 },
            Colors::BLUE => ColorView { r: 0, g: 0, b: 255, a: 255 },
            Colors::YELLOW => ColorView { r: 255, g: 255, b: 0, a: 255 },
            Colors::MAGENTA => ColorView { r: 255, g: 0, b: 255, a: 255 },
            Colors::CYAN => ColorView { r: 0, g: 255, b: 255, a: 255 },
            Colors::WHITE => ColorView { r: 255, g: 255, b: 255, a: 255 },
        }
    }

    pub fn as_color(&self) -> (color: Color)
        ensures
            color@ == self.spec_as_color(),
    {
        match self {
            Colors::BLACK => Color::new(0, 0, 0, 255),
            Colors::RED => Color::new(255, 0, 0, 255),
            Colors::GREEN => Color::new(0, 255, 0, 255),
            Colors::BLUE => Color::new(0, 0, 255, 255),
            Colors::YELLOW => Color::new(255, 255, 0, 255),
            Colors::MAGENTA => Color::new(255, 0, 255, 255),
            Colors::CYAN => Color::new(0, 255, 255, 255),
            Colors::WHITE => Color::new(255, 255, 255, 255),
        }
    }
}

impl Color {
    /// Returns a color based on provided RGBA.
    pub fn new(r: u8, g: u8, b: u8, a: u8) -> (color: Color)
        ensures
            color@ == (ColorView { r, g, b, a }),
    {
        Color { r, g, b, a }
    }

    /// The colour packed as the graphics pipeline takes it.
    pub fn as_abgr(&self) -> (packed: u32)
        ensures
            packed == self@.abgr(),
    {
        let r: u32 = self.r as u32;
        let g: u32 = self.g as u32;
        let b: u32 = self.b as u32;
        let a: u32 = self.a as u32;
        assert(a << 24 | b << 16 | g << 8 | r == a * 0x100_0000 + b * 0x1_0000 + g * 0x100 + r)
            by (bit_vector)
            requires
                r < 256,
                g < 256,
                b < 256,
                a < 256,
        ;
        a << 24 | b << 16 | g << 8 | r
    }
}

} // verus!

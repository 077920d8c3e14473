//! Colours of the text-mode palette and the packed attribute byte.

use vstd::prelude::*;

verus! {

/// The sixteen colours of the text-mode palette.
#[allow(dead_code)]
#[derive(Debug, Clone, Copy, PartialEq, Eq, Structural)]
pub enum Color {
    Black,
    Blue,
    Green,
    Cyan,
    Red,
    Magenta,
    Brown,
    LightGray,
    DarkGray,
    LightBlue,
    LightGreen,
    LightCyan,
    LightRed,
    Pink,
    Yellow,
    White,
}

impl Color {
    /// The palette index of the colour, always below sixteen.
    pub open spec fn spec_code(self) -> u8 {
        match self {
            Color::Black => 0,
            Color::Blue => 1,
            Color::Green => 2,
            Color::Cyan => 3,
            Color::Red => 4,
            Color::Magenta => 5,
            Color::Brown => 6,
            Color::LightGray => 7,
            Color::DarkGray => 8,
            Color::LightBlue => 9,
            Color::LightGreen => 10,
            Color::LightCyan => 11,
            Color::LightRed => 12,
            Color::Pink => 13,
            Color::Yellow => 14,
            Color::White => 15,
        }
    }

    /// The palette index of the colour as the hardware numbers it.
    #[verifier::when_used_as_spec(spec_code)]
    pub fn code(self) -> (code: u8)
        ensures
            code == self.spec_code(),
            code < 16,
    {
        match self {
            Color::Black => 0,
            Color::Blue => 1,
            Color::Green => 2,
            Color::Cyan => 3,
            Color::Red => 4,
            Color::Magenta => 5,
            Color::Brown => 6,
            Color::LightGray => 7,
            Color::DarkGray => 8,
            Color::LightBlue => 9,
            Color::LightGreen => 10,
            Color::LightCyan => 11,
            Color::LightRed => 12,
            Color::Pink => 13,
            Color::Yellow => 14,
            Color::White => 15,
        }
    }
}

/// The attribute byte that pairs a foreground with a background colour:
/// background index in the high four bits, foreground index in the low four.
pub open spec fn attribute_byte(foreground: Color, background: Color) -> u8 {
    (background.spec_code() << 4) | foreground.spec_code()
}

/// A packed foreground/background attribute.
#[derive(Debug, Clone, Copy, PartialEq, Eq, Structural)]
pub struct ColorCode(u8);

impl View for ColorCode {
    type V = u8;

    closed spec fn view(&self) -> u8 {
        self.0
    }
}

impl ColorCode {
    /// The attribute that pairs the two colours.
    pub closed spec fn spec_new(foreground: Color, background: Color) -> ColorCode {
        ColorCode(attribute_byte(foreground, background))
    }

    /// Packs the two colours into one attribute byte. The low nibble of the
    /// byte is the foreground's index and the high nibble the background's.
    #[verifier::when_used_as_spec(spec_new)]
    pub fn new(foreground: Color, background: Color) -> (code: ColorCode)
        ensures
            code == ColorCode::spec_new(foreground, background),
            code@ == attribute_byte(foreground, background),
            code@ & 0x0f == foreground.spec_code(),
            code@ >> 4 == background.spec_code(),
    {
        let fg: u8 = foreground.code();
        let bg: u8 = background.code();
        assert(((bg << 4) | fg) & 0x0f == fg && ((bg << 4) | fg) >> 4 == bg) by (bit_vector)
            requires
                fg < 16,
                bg < 16,
        ;
        ColorCode((bg << 4) | fg)
    }

    /// The attribute byte as the hardware reads it.
    pub fn bits(&self) -> (bits: u8)
        ensures
            bits == self@,
    {
        self.0
    }
}

} // verus!

//! One position of the character grid.

use crate::color::ColorCode;
use vstd::prelude::*;

verus! {

/// A character cell: the code point shown and the attribute it is shown with.
#[derive(Debug, Clone, Copy, PartialEq, Eq, Structural)]
pub struct ScreenChar {
    pub ascii_character: u8,
    pub color_code: ColorCode,
}

/// The code point of the space character, which fills a cleared row.
pub const SPACE: u8 = 0x20;

/// The cell that a cleared position holds under the given attribute.
pub open spec fn blank_cell(color_code: ColorCode) -> ScreenChar {
    ScreenChar { ascii_character: SPACE, color_code }
}

} // verus!

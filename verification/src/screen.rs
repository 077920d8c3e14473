//! The mathematical model of the display: what the grid and the cursor are
//! after each operation of the writer.

use crate::buffer::{grid_shaped, BUFFER_HEIGHT, BUFFER_WIDTH};
use crate::cell::{blank_cell, ScreenChar};
use crate::color::ColorCode;
use vstd::prelude::*;

verus! {

/// The code point that ends a line.
pub const NEWLINE: u8 = 0x0a;

/// The code point shown in place of a byte that has no glyph of its own.
pub const PLACEHOLDER: u8 = 0xfe;

/// Whether the byte is a printable ASCII code point.
pub open spec fn is_printable(byte: u8) -> bool {
    0x20 <= byte <= 0x7e
}

/// The byte that is handed to the cursor for an input byte: printable bytes
/// and the newline pass unchanged, every other byte becomes the placeholder.
pub open spec fn displayed(byte: u8) -> u8 {
    if is_printable(byte) || byte == NEWLINE {
        byte
    } else {
        PLACEHOLDER
    }
}

/// A row of blank cells under the given attribute.
pub open spec fn blank_row(color_code: ColorCode) -> Seq<ScreenChar> {
    Seq::new(BUFFER_WIDTH as nat, |col: int| blank_cell(color_code))
}

/// The grid shifted up by one row: row 0 is lost, every other row moves to
/// the row above it, and the bottom row is blank.
pub open spec fn scrolled(grid: Seq<Seq<ScreenChar>>, color_code: ColorCode) -> Seq<
    Seq<ScreenChar>,
> {
    Seq::new(
        BUFFER_HEIGHT as nat,
        |row: int|
            if row + 1 < BUFFER_HEIGHT {
                grid[row + 1]
            } else {
                blank_row(color_code)
            },
    )
}

/// The state of the display: the cursor's column in the bottom row, the
/// attribute that new cells get, and the cells themselves.
pub struct Screen {
    pub column: nat,
    pub color_code: ColorCode,
    pub grid: Seq<Seq<ScreenChar>>,
}

impl Screen {
    /// The row that output goes to.
    pub open spec fn bottom() -> int {
        BUFFER_HEIGHT - 1
    }

    /// The cursor is within or just behind the bottom row, and the grid has
    /// 25 rows of 80 cells.
    pub open spec fn well_formed(self) -> bool {
        &&& self.column <= BUFFER_WIDTH
        &&& grid_shaped(self.grid)
    }

    /// The display with one row blanked.
    pub open spec fn clear_row(self, row: int) -> Screen {
        Screen { grid: self.grid.update(row, blank_row(self.color_code)), ..self }
    }

    /// The display after a line break: the grid scrolled, the cursor at the
    /// start of the blank bottom row.
    pub open spec fn new_line(self) -> Screen {
        Screen { column: 0, grid: scrolled(self.grid, self.color_code), ..self }
    }

    /// The display with the byte placed at the cursor and the cursor advanced.
    pub open spec fn put(self, byte: u8) -> Screen {
        Screen {
            column: self.column + 1,
            grid: self.grid.update(
                Self::bottom(),
                self.grid[Self::bottom()].update(
                    self.column as int,
                    ScreenChar { ascii_character: byte, color_code: self.color_code },
                ),
            ),
            ..self
        }
    }

    /// The display after one byte: a newline breaks the line; any other byte
    /// is placed at the cursor, after a line break if the row is full.
    pub open spec fn write_byte(self, byte: u8) -> Screen {
        if byte == NEWLINE {
            self.new_line()
        } else if self.column >= BUFFER_WIDTH {
            self.new_line().put(byte)
        } else {
            self.put(byte)
        }
    }

    /// The display after the bytes in order, each one replaced by the byte
    /// shown for it.
    pub open spec fn write_string(self, bytes: Seq<u8>) -> Screen
        decreases bytes.len(),
    {
        if bytes.len() == 0 {
            self
        } else {
            self.write_string(bytes.drop_last()).write_byte(displayed(bytes.last()))
        }
    }
}

} // verus!

//! The writer: a cursor in the bottom row of the grid, line wrap and
//! scrolling.

use crate::buffer::{grid_shaped, Buffer, BUFFER_HEIGHT, BUFFER_WIDTH};
use crate::cell::{blank_cell, ScreenChar, SPACE};
use crate::color::{Color, ColorCode};
use crate::screen::{blank_row, scrolled, Screen, NEWLINE, PLACEHOLDER};
use vstd::prelude::*;
use vstd::string::StringSliceAdditionalSpecFns;

verus! {

/// `core::fmt::Error`, the error of the formatting traits. The writer never
/// returns one.
#[verifier::external_type_specification]
#[verifier::external_body]
pub struct ExFmtError(core::fmt::Error);

/// Writes bytes to the bottom row of a grid that it alone refers to.
pub struct Writer {
    column_position: usize,
    color_code: ColorCode,
    buffer: &'static mut Buffer,
}

impl View for Writer {
    type V = Screen;

    closed spec fn view(&self) -> Screen {
        Screen {
            column: self.column_position as nat,
            color_code: self.color_code,
            grid: self.buffer@,
        }
    }
}

impl Writer {
    /// A writer over the given grid, with the cursor at the start of the
    /// bottom row and yellow on black as its attribute. The grid's cells are
    /// left as they are.
    pub fn new(buffer: &'static mut Buffer) -> (writer: Writer)
        ensures
            writer@.column == 0,
            writer@.color_code == ColorCode::spec_new(Color::Yellow, Color::Black),
            writer@.grid == old(buffer)@,
            writer@.well_formed(),
    {
        proof {
            buffer.lemma_shape();
        }
        Writer {
            column_position: 0,
            color_code: ColorCode::new(Color::Yellow, Color::Black),
            buffer,
        }
    }

    /// Writes one byte. A newline breaks the line. Any other byte is placed
    /// at the cursor in the bottom row under the writer's attribute, after a
    /// line break if the row is already full, and the cursor moves one
    /// column to the right.
    pub fn write_byte(&mut self, byte: u8)
        ensures
            final(self)@ == old(self)@.write_byte(byte),
            final(self)@.well_formed(),
    {
        if byte == NEWLINE {
            self.new_line();
        } else {
            if self.column_position >= BUFFER_WIDTH {
                self.new_line();
            }
            let row = BUFFER_HEIGHT - 1;
            let col = self.column_position;

            let color_code = self.color_code;
            self.buffer.write(row, col, ScreenChar { ascii_character: byte, color_code });
            self.column_position += 1;
        }
    }

    /// Breaks the line: every row moves to the row above it, from the top
    /// down, the first row is lost, the bottom row is blanked and the cursor
    /// returns to its first column.
    pub fn new_line(&mut self)
        ensures
            final(self)@ == old(self)@.new_line(),
            final(self)@.well_formed(),
    {
        proof {
            self.buffer.lemma_shape();
        }
        for row in 1..BUFFER_HEIGHT
            invariant
                self.column_position == old(self).column_position,
                self.color_code == old(self).color_code,
                grid_shaped(self.buffer@),
                grid_shaped(old(self).buffer@),
                forall|r: int|
                    0 <= r < row - 1 ==> #[trigger] self.buffer@[r] == old(self).buffer@[r + 1],
                forall|r: int|
                    row - 1 <= r < BUFFER_HEIGHT ==> #[trigger] self.buffer@[r] == old(
                        self,
                    ).buffer@[r],
        {
            let ghost before = self.buffer@;
            let ghost above: int = row - 1;
            for col in 0..BUFFER_WIDTH
                invariant
                    1 <= row < BUFFER_HEIGHT,
                    above == row - 1,
                    self.column_position == old(self).column_position,
                    self.color_code == old(self).color_code,
                    grid_shaped(self.buffer@),
                    grid_shaped(before),
                    forall|r: int|
                        0 <= r < BUFFER_HEIGHT && r != above ==> #[trigger] self.buffer@[r]
                            == before[r],
                    forall|c: int|
                        0 <= c < col ==> #[trigger] self.buffer@[above][c] == before[row as int][c],
                    forall|c: int|
                        col <= c < BUFFER_WIDTH ==> #[trigger] self.buffer@[above][c]
                            == before[above][c],
            {
                let character = self.buffer.read(row, col);
                self.buffer.write(row - 1, col, character);
            }
            assert(self.buffer@[above] =~= before[row as int]);
        }
        self.clear_row(BUFFER_HEIGHT - 1);
        self.column_position = 0;
        assert(self.buffer@ =~= scrolled(old(self).buffer@, old(self).color_code));
    }

    /// Writes the bytes of a string in order. A printable ASCII byte or a
    /// newline is written as it is; every other byte is written as the
    /// placeholder. The empty string changes nothing.
    pub fn write_string(&mut self, s: &str)
        ensures
            final(self)@ == old(self)@.write_string(s.spec_bytes()),
            old(self)@.well_formed() ==> final(self)@.well_formed(),
    {
        let bytes = s.as_bytes();
        for i in 0..bytes.len()
            invariant
                bytes@ == s.spec_bytes(),
                self@ == old(self)@.write_string(bytes@.take(i as int)),
                old(self)@.well_formed() ==> self@.well_formed(),
        {
            let byte = bytes[i];
            proof {
                assert(bytes@.take(i + 1).drop_last() =~= bytes@.take(i as int));
            }
            match byte {
                0x20..=0x7e | NEWLINE => self.write_byte(byte),
                _ => self.write_byte(PLACEHOLDER),
            }
        }
        proof {
            assert(bytes@.take(bytes@.len() as int) =~= bytes@);
        }
    }

    /// The column that the next byte goes to; 80 when the bottom row is full.
    pub fn column_position(&self) -> (column: usize)
        ensures
            column == self@.column,
    {
        self.column_position
    }

    /// The attribute that written and blanked cells get.
    pub fn color_code(&self) -> (color_code: ColorCode)
        ensures
            color_code == self@.color_code,
    {
        self.color_code
    }

    /// Volatile read of the cell at `(row, col)`, or `None` where the
    /// position is outside the grid.
    pub fn cell(&self, row: usize, col: usize) -> (cell: Option<ScreenChar>)
        ensures
            cell == if row < BUFFER_HEIGHT && col < BUFFER_WIDTH {
                Some(self@.grid[row as int][col as int])
            } else {
                None
            },
    {
        if row < BUFFER_HEIGHT && col < BUFFER_WIDTH {
            Some(self.buffer.read(row, col))
        } else {
            None
        }
    }

    /// Blanks one row: every cell of it becomes a space under the writer's
    /// attribute.
    fn clear_row(&mut self, row: usize)
        requires
            row < BUFFER_HEIGHT,
        ensures
            final(self)@ == old(self)@.clear_row(row as int),
    {
        let blank = ScreenChar { ascii_character: SPACE, color_code: self.color_code };
        proof {
            self.buffer.lemma_shape();
        }
        for col in 0..BUFFER_WIDTH
            invariant
                row < BUFFER_HEIGHT,
                blank == blank_cell(self.color_code),
                self.column_position == old(self).column_position,
                self.color_code == old(self).color_code,
                self.buffer@.len() == BUFFER_HEIGHT,
                self.buffer@[row as int].len() == BUFFER_WIDTH,
                forall|r: int|
                    0 <= r < BUFFER_HEIGHT && r != row ==> #[trigger] self.buffer@[r] == old(
                        self,
                    ).buffer@[r],
                forall|c: int| 0 <= c < col ==> #[trigger] self.buffer@[row as int][c] == blank,
        {
            self.buffer.write(row, col, blank);
        }
        assert(self.buffer@[row as int] =~= blank_row(self.color_code));
        assert(self.buffer@ =~= old(self).buffer@.update(
            row as int,
            blank_row(self.color_code),
        ));
    }
}

impl core::fmt::Write for Writer {
    /// Writes the string as `write_string` does. Writing cannot fail.
    fn write_str(&mut self, s: &str) -> (result: Result<(), core::fmt::Error>)
        ensures
            result is Ok,
            final(self)@ == old(self)@.write_string(s.spec_bytes()),
            old(self)@.well_formed() ==> final(self)@.well_formed(),
    {
        self.write_string(s);
        Ok(())
    }
}

} // verus!

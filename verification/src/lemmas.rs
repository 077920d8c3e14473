//! What holds of the display model for every text and every screen.

use crate::buffer::{BUFFER_HEIGHT, BUFFER_WIDTH};
use crate::cell::{blank_cell, ScreenChar};
use crate::screen::{blank_row, displayed, is_printable, Screen, NEWLINE, PLACEHOLDER};
use vstd::prelude::*;

verus! {

/// The cell that a written byte leaves on a screen.
pub open spec fn written_cell(screen: Screen, byte: u8) -> ScreenChar {
    ScreenChar { ascii_character: byte, color_code: screen.color_code }
}

/// Whether every byte of the text is printable ASCII.
pub open spec fn all_printable(bytes: Seq<u8>) -> bool {
    forall|i: int| 0 <= i < bytes.len() ==> is_printable(#[trigger] bytes[i])
}

/// A text of `count` newlines.
pub open spec fn newlines(count: nat) -> Seq<u8> {
    Seq::new(count, |i: int| NEWLINE)
}

/// Writing keeps a well-formed screen well formed and never changes the
/// attribute.
pub proof fn lemma_write_string_well_formed(screen: Screen, bytes: Seq<u8>)
    requires
        screen.well_formed(),
    ensures
        screen.write_string(bytes).well_formed(),
        screen.write_string(bytes).color_code == screen.color_code,
    decreases bytes.len(),
{
    if bytes.len() > 0 {
        lemma_write_string_well_formed(screen, bytes.drop_last());
    }
}

/// Writing a text in two pieces gives the same screen as writing it whole.
pub proof fn lemma_write_string_concat(screen: Screen, first: Seq<u8>, second: Seq<u8>)
    ensures
        screen.write_string(first + second) == screen.write_string(first).write_string(second),
    decreases second.len(),
{
    if second.len() == 0 {
        assert(first + second =~= first);
    } else {
        lemma_write_string_concat(screen, first, second.drop_last());
        assert((first + second).drop_last() =~= first + second.drop_last());
    }
}

/// Printable text that fits in the rest of the bottom row goes to the cells
/// at the cursor, one byte each under the screen's attribute; the cursor ends
/// behind the text and no other cell changes. From the first column, a text
/// of at most 80 bytes leaves the cursor at the text's length.
pub proof fn lemma_write_within_row(screen: Screen, bytes: Seq<u8>)
    requires
        screen.well_formed(),
        all_printable(bytes),
        screen.column + bytes.len() <= BUFFER_WIDTH,
    ensures
        screen.write_string(bytes).column == screen.column + bytes.len(),
        screen.write_string(bytes).color_code == screen.color_code,
        screen.write_string(bytes).well_formed(),
        forall|col: int|
            screen.column <= col < screen.column + bytes.len() ==> #[trigger] screen.write_string(
                bytes,
            ).grid[Screen::bottom()][col] == written_cell(screen, bytes[col - screen.column]),
        forall|row: int, col: int|
            0 <= row < BUFFER_HEIGHT && 0 <= col < BUFFER_WIDTH && !(row == Screen::bottom()
                && screen.column <= col < screen.column + bytes.len())
                ==> #[trigger] screen.write_string(bytes).grid[row][col] == screen.grid[row][col],
    decreases bytes.len(),
{
    if bytes.len() > 0 {
        let front = bytes.drop_last();
        lemma_write_within_row(screen, front);
        let before = screen.write_string(front);
        let after = screen.write_string(bytes);
        assert(is_printable(bytes.last()));
        assert(after == before.put(bytes.last()));
        assert forall|col: int| screen.column <= col < screen.column + bytes.len() implies (
        #[trigger] after.grid[Screen::bottom()][col]) == written_cell(
            screen,
            bytes[col - screen.column],
        ) by {
            if col < screen.column + front.len() {
                assert(before.grid[Screen::bottom()][col] == written_cell(
                    screen,
                    front[col - screen.column],
                ));
            }
        }
    }
}

/// A byte other than the newline that arrives when the bottom row is full
/// scrolls the grid first: every row moves up by one, so that the full row
/// is now the row above the bottom one, and the byte lands in the first
/// column of a bottom row that is blank behind it.
pub proof fn lemma_write_byte_on_full_row(screen: Screen, byte: u8)
    requires
        screen.well_formed(),
        screen.column == BUFFER_WIDTH,
        byte != NEWLINE,
    ensures
        screen.write_byte(byte).column == 1,
        screen.write_byte(byte).color_code == screen.color_code,
        screen.write_byte(byte).well_formed(),
        forall|row: int|
            0 <= row < Screen::bottom() ==> #[trigger] screen.write_byte(byte).grid[row]
                == screen.grid[row + 1],
        screen.write_byte(byte).grid[Screen::bottom()][0] == written_cell(screen, byte),
        forall|col: int|
            1 <= col < BUFFER_WIDTH ==> #[trigger] screen.write_byte(
                byte,
            ).grid[Screen::bottom()][col] == blank_cell(screen.color_code),
{
}

/// Eighty printable bytes written from the first column fill the bottom row
/// without scrolling; one more printable byte scrolls first. Afterwards the
/// eighty bytes stand in the row above the bottom one, the rows above them
/// are the old rows moved up by one, and the last byte stands in the first
/// column of the bottom row, with the cursor behind it.
pub proof fn lemma_wrap_after_full_row(screen: Screen, bytes: Seq<u8>)
    requires
        screen.well_formed(),
        screen.column == 0,
        bytes.len() == BUFFER_WIDTH + 1,
        all_printable(bytes),
    ensures
        screen.write_string(bytes.drop_last()).column == BUFFER_WIDTH,
        forall|row: int|
            0 <= row < Screen::bottom() ==> #[trigger] screen.write_string(
                bytes.drop_last(),
            ).grid[row] == screen.grid[row],
        screen.write_string(bytes).column == 1,
        screen.write_string(bytes).well_formed(),
        screen.write_string(bytes).grid[Screen::bottom() - 1] == screen.write_string(
            bytes.drop_last(),
        ).grid[Screen::bottom()],
        forall|col: int|
            0 <= col < BUFFER_WIDTH ==> #[trigger] screen.write_string(bytes).grid[Screen::bottom()
                - 1][col] == written_cell(screen, bytes[col]),
        forall|row: int|
            0 <= row < Screen::bottom() - 1 ==> #[trigger] screen.write_string(bytes).grid[row]
                == screen.grid[row + 1],
        screen.write_string(bytes).grid[Screen::bottom()][0] == written_cell(
            screen,
            bytes[BUFFER_WIDTH as int],
        ),
        forall|col: int|
            1 <= col < BUFFER_WIDTH ==> #[trigger] screen.write_string(
                bytes,
            ).grid[Screen::bottom()][col] == blank_cell(screen.color_code),
{
    let front = bytes.drop_last();
    let full = screen.write_string(front);
    lemma_write_within_row(screen, front);
    lemma_write_byte_on_full_row(full, bytes.last());
    assert forall|row: int| 0 <= row < Screen::bottom() implies #[trigger] full.grid[row]
        == screen.grid[row] by {
        assert forall|col: int| 0 <= col < BUFFER_WIDTH implies full.grid[row][col]
            == screen.grid[row][col] by {}
        assert(full.grid[row] =~= screen.grid[row]);
    }
    assert forall|col: int| 0 <= col < BUFFER_WIDTH implies #[trigger] screen.write_string(
        bytes,
    ).grid[Screen::bottom() - 1][col] == written_cell(screen, bytes[col]) by {
        assert(full.grid[Screen::bottom()][col] == written_cell(screen, front[col - 0]));
    }
}

/// After `count` newlines every row holds what stood `count` rows below it,
/// and the rows that had nothing that far below are blank. Old content only
/// moves up and out: from 25 newlines on, the whole grid is blank and stays
/// so.
pub proof fn lemma_repeated_newlines(screen: Screen, count: nat)
    requires
        screen.well_formed(),
    ensures
        screen.write_string(newlines(count)).color_code == screen.color_code,
        screen.write_string(newlines(count)).well_formed(),
        count > 0 ==> screen.write_string(newlines(count)).column == 0,
        forall|row: int|
            0 <= row < BUFFER_HEIGHT ==> #[trigger] screen.write_string(newlines(count)).grid[row]
                == if row + count < BUFFER_HEIGHT {
                screen.grid[row + count]
            } else {
                blank_row(screen.color_code)
            },
        count >= BUFFER_HEIGHT ==> forall|row: int|
            0 <= row < BUFFER_HEIGHT ==> #[trigger] screen.write_string(newlines(count)).grid[row]
                == blank_row(screen.color_code),
    decreases count,
{
    if count > 0 {
        let fewer = (count - 1) as nat;
        lemma_repeated_newlines(screen, fewer);
        assert(newlines(count).drop_last() =~= newlines(fewer));
        assert(newlines(count).last() == NEWLINE);
        let before = screen.write_string(newlines(fewer));
        assert(screen.write_string(newlines(count)) == before.new_line());
    } else {
        assert(newlines(count) =~= Seq::<u8>::empty());
    }
}

/// A byte that is neither printable ASCII nor the newline is written as the
/// placeholder: the cell that it goes to holds the placeholder's code under
/// the screen's attribute, whatever the byte was.
pub proof fn lemma_unprintable_shown_as_placeholder(screen: Screen, byte: u8)
    requires
        screen.well_formed(),
        !is_printable(byte),
        byte != NEWLINE,
    ensures
        displayed(byte) == PLACEHOLDER,
        screen.write_string(seq![byte]) == screen.write_byte(PLACEHOLDER),
        screen.write_string(seq![byte]) == screen.write_string(seq![PLACEHOLDER]),
        screen.column < BUFFER_WIDTH ==> screen.write_string(
            seq![byte],
        ).grid[Screen::bottom()][screen.column as int] == written_cell(screen, PLACEHOLDER),
        screen.column == BUFFER_WIDTH ==> screen.write_string(seq![byte]).grid[Screen::bottom()][0]
            == written_cell(screen, PLACEHOLDER),
{
    assert(seq![byte].drop_last() =~= Seq::<u8>::empty());
    assert(seq![PLACEHOLDER].drop_last() =~= Seq::<u8>::empty());
    assert(seq![byte].last() == byte);
    assert(seq![PLACEHOLDER].last() == PLACEHOLDER);
    assert(screen.write_string(Seq::<u8>::empty()) == screen);
}

/// Only the bytes shown reach the grid: a text and the text with every byte
/// replaced by the byte shown for it give the same screen.
pub proof fn lemma_write_string_of_displayed(screen: Screen, bytes: Seq<u8>)
    ensures
        screen.write_string(bytes) == screen.write_string(bytes.map_values(|b: u8| displayed(b))),
    decreases bytes.len(),
{
    let shown = bytes.map_values(|b: u8| displayed(b));
    if bytes.len() > 0 {
        lemma_write_string_of_displayed(screen, bytes.drop_last());
        assert(shown.drop_last() =~= bytes.drop_last().map_values(|b: u8| displayed(b)));
        assert(shown.last() == displayed(bytes.last()));
        assert(displayed(displayed(bytes.last())) == displayed(bytes.last()));
    }
}

} // verus!

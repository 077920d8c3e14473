//! The character grid: 25 rows of 80 volatile cells.

use crate::cell::ScreenChar;
use volatile::Volatile;
use vstd::prelude::*;

verus! {

/// Number of columns of the grid.
pub const BUFFER_WIDTH: usize = 80;

/// Number of rows of the grid.
pub const BUFFER_HEIGHT: usize = 25;

/// `volatile::Volatile`, a slot whose value is only reached by volatile
/// loads and stores. Its contents are hidden from the verifier.
#[verifier::external_type_specification]
#[verifier::external_body]
#[verifier::reject_recursive_types(T)]
pub struct ExVolatile<T: Copy>(Volatile<T>);

/// The cell that a slot contains.
pub uninterp spec fn held(slot: Volatile<ScreenChar>) -> ScreenChar;

/// Calls `Volatile::read`. Assumed, not proved: the volatile load returns a
/// copy of the cell that the slot contains, and leaves the slot as it is.
#[verifier::external_body]
fn read_slot(slot: &Volatile<ScreenChar>) -> (value: ScreenChar)
    ensures
        value == held(*slot),
{
    slot.read()
}

/// Calls `Volatile::write`. Assumed, not proved: after the volatile store
/// the slot contains the given cell.
#[verifier::external_body]
fn write_slot(slot: &mut Volatile<ScreenChar>, value: ScreenChar)
    ensures
        held(*final(slot)) == value,
{
    slot.write(value)
}

/// The grid of cells, laid out row by row.
pub struct Buffer {
    chars: [[Volatile<ScreenChar>; BUFFER_WIDTH]; BUFFER_HEIGHT],
}

/// The cell values of a grid of slots, row by row.
pub open spec fn held_grid(
    chars: [[Volatile<ScreenChar>; BUFFER_WIDTH]; BUFFER_HEIGHT],
) -> Seq<Seq<ScreenChar>> {
    Seq::new(
        BUFFER_HEIGHT as nat,
        |row: int| Seq::new(BUFFER_WIDTH as nat, |col: int| held(chars@[row]@[col])),
    )
}

/// Whether a sequence of rows has the dimensions of the grid.
pub open spec fn grid_shaped(grid: Seq<Seq<ScreenChar>>) -> bool {
    &&& grid.len() == BUFFER_HEIGHT
    &&& forall|row: int| 0 <= row < BUFFER_HEIGHT ==> (#[trigger] grid[row]).len() == BUFFER_WIDTH
}

impl View for Buffer {
    type V = Seq<Seq<ScreenChar>>;

    /// The cells of the grid: `self@[row][col]` is the cell at that position.
    closed spec fn view(&self) -> Seq<Seq<ScreenChar>> {
        held_grid(self.chars)
    }
}

impl Buffer {
    /// The grid made of the given slots, each with the cell it contains.
    pub fn new(chars: [[Volatile<ScreenChar>; BUFFER_WIDTH]; BUFFER_HEIGHT]) -> (buffer: Buffer)
        ensures
            buffer@ == held_grid(chars),
            grid_shaped(buffer@),
    {
        Buffer { chars }
    }

    /// Every buffer has 25 rows of 80 cells.
    pub proof fn lemma_shape(self)
        ensures
            grid_shaped(self@),
    {
    }

    /// Volatile read of the cell at `(row, col)`.
    pub fn read(&self, row: usize, col: usize) -> (value: ScreenChar)
        requires
            row < BUFFER_HEIGHT,
            col < BUFFER_WIDTH,
        ensures
            value == self@[row as int][col as int],
    {
        read_slot(&self.chars[row][col])
    }

    /// Volatile write of the cell at `(row, col)`; every other cell keeps its
    /// value.
    pub fn write(&mut self, row: usize, col: usize, value: ScreenChar)
        requires
            row < BUFFER_HEIGHT,
            col < BUFFER_WIDTH,
        ensures
            final(self)@ == old(self)@.update(
                row as int,
                old(self)@[row as int].update(col as int, value),
            ),
            grid_shaped(final(self)@),
    {
        write_slot(&mut self.chars[row][col], value);
        assert(self@ =~~= old(self)@.update(
            row as int,
            old(self)@[row as int].update(col as int, value),
        ));
    }
}

} // verus!

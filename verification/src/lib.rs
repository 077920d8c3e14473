//! Text-mode display driver: a colour attribute codec, the character cell,
//! the 80x25 grid of volatile cells and a writer that fills the bottom row
//! and scrolls the grid upwards on overflow.

pub mod buffer;
pub mod cell;
pub mod color;
pub mod lemmas;
pub mod screen;
pub mod writer;

//! Logical and grid coordinates.

use vstd::prelude::*;

verus! {

/// A document coordinate: `row` is a line index, `col` is either a grapheme
/// index (logical position) or a display column (grid position), depending
/// on context.
#[derive(Copy, Clone, Debug, PartialEq, Eq, Structural)]
pub struct Position {
    pub row: usize,
    pub col: usize,
}

impl Default for Position {
    /// The origin: row 0, column 0.
    fn default() -> (p: Position)
        ensures
            p.row == 0,
            p.col == 0,
    {
        Position { row: 0, col: 0 }
    }
}

} // verus!

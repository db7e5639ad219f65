//! The board: a fixed grid of cells, and the coordinate space on it.

use vstd::prelude::*;

verus! {

/// A cell position on the board: a column (`x`) and a row (`y`).
#[derive(Clone, Copy, PartialEq, Eq, Structural, Debug)]
pub struct Coord {
    pub x: u32,
    pub y: u32,
}

/// The fixed dimensions of the playing field. The board is immutable for the
/// lifetime of a game; it only answers whether a coordinate lies inside it.
#[derive(Clone, Copy, PartialEq, Eq, Structural, Debug)]
pub struct Board {
    pub columns: u32,
    pub rows: u32,
}

impl Board {
    /// A board must have at least one cell.
    pub open spec fn wf(self) -> bool {
        self.columns >= 1 && self.rows >= 1
    }

    /// The valid coordinate space: `[0, columns) x [0, rows)`.
    pub open spec fn contains(self, c: Coord) -> bool {
        c.x < self.columns && c.y < self.rows
    }

    /// True iff both axes of `c` are within the board's bounds.
    pub fn is_inside(&self, c: Coord) -> (r: bool)
        ensures
            r == self.contains(c),
    {
        c.x < self.columns && c.y < self.rows
    }
}

} // verus!

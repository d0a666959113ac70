//! Coordinates of the cells of the board.

use vstd::prelude::*;

verus! {

/// A cell coordinate: `x` is the column and `y` the row, both counted from 0.
#[derive(Clone, Copy, Debug, PartialEq, Eq, Structural)]
pub struct Point {
    pub x: u8,
    pub y: u8,
}

impl Point {
    /// Whether the point names one of the nine cells of the board.
    pub open spec fn on_board(self) -> bool {
        self.x < 3 && self.y < 3
    }

    /// Returns the point with column `x` and row `y`.
    pub fn new(x: u8, y: u8) -> (p: Point)
        ensures
            p == (Point { x, y }),
    {
        Point { x, y }
    }
}

} // verus!

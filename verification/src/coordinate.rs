use vstd::prelude::*;

use crate::BOARD_SIZE;

verus! {

/// A validated board position: `x` is the file (column), `y` the rank (row).
/// Equality is component-wise.
#[derive(Clone, Copy, Debug, PartialEq, Eq, Structural)]
pub struct Coordinate {
    pub x: usize,
    pub y: usize,
}

impl Coordinate {
    /// Both components lie on the board.
    pub open spec fn in_bounds(self) -> bool {
        self.x < BOARD_SIZE && self.y < BOARD_SIZE
    }

    /// Builds a coordinate from file and rank indices. Passing an
    /// out-of-range index is a caller contract violation, not a game-state
    /// error, so the precondition rules it out.
    pub fn new(x: usize, y: usize) -> (c: Coordinate)
        requires
            x < BOARD_SIZE,
            y < BOARD_SIZE,
        ensures
            c.x == x,
            c.y == y,
            c.in_bounds(),
    {
        Coordinate { x, y }
    }
}

} // verus!

//! Coordinates on the fixed-size toroidal grid.

use vstd::prelude::*;

verus! {

/// Number of cells along each axis of the square grid.
pub const GRID_SIZE: i32 = 10;

/// One cell of the toroidal grid. Both coordinates of a well-formed position
/// lie in `[0, GRID_SIZE - 1]`.
#[derive(Clone, Copy, PartialEq, Eq, Structural, Debug)]
pub struct GridPosition {
    pub x: i32,
    pub y: i32,
}

/// Both coordinates lie on the grid.
pub open spec fn pos_in_range(p: GridPosition) -> bool {
    0 <= p.x < GRID_SIZE && 0 <= p.y < GRID_SIZE
}

/// One wrap step of the toroidal topology: a coordinate that stepped just
/// below the grid re-enters at the top end, one that stepped just above
/// re-enters at zero. A single move changes a coordinate by at most one, so
/// one wrap step suffices.
pub open spec fn wrap_coord(c: int) -> int {
    if c < 0 {
        GRID_SIZE - 1
    } else if c > GRID_SIZE - 1 {
        0
    } else {
        c
    }
}

} // verus!

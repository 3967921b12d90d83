//! Directions of travel, the step they stand for, and the ways a move can fail.

use vstd::prelude::*;

verus! {

/// The four cardinal directions a being can step in.
#[derive(Clone, Copy, Debug, PartialEq, Eq, Structural)]
pub enum Direction {
    West,
    East,
    North,
    South,
}

/// Why a move was turned down.
#[derive(Clone, Copy, Debug, PartialEq, Eq, Structural)]
pub enum MovementError {
    /// The square the move starts from holds no being.
    NoBeingInSquare,
    /// The destination lies beyond the squares of the grid.
    SquareOffGrid,
    /// A being already stands on the destination.
    SquareOccupied,
    /// The ground of the destination is stone.
    StoneTerrain,
}

/// A coordinate as a pair of mathematical integers.
pub open spec fn point(coord: (usize, usize)) -> (int, int) {
    (coord.0 as int, coord.1 as int)
}

/// The coordinate one step away from `from`: west and east lower and raise
/// the first axis, north and south lower and raise the second.
pub open spec fn step(from: (int, int), dir: Direction) -> (int, int) {
    match dir {
        Direction::West => (from.0 - 1, from.1),
        Direction::East => (from.0 + 1, from.1),
        Direction::North => (from.0, from.1 - 1),
        Direction::South => (from.0, from.1 + 1),
    }
}

/// Neither component of the coordinate is negative.
pub open spec fn non_negative(coord: (int, int)) -> bool {
    0 <= coord.0 && 0 <= coord.1
}

} // verus!

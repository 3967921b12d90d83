//! The contents of a single cell of the grid.

use vstd::prelude::*;

verus! {

/// Base terrain of a square. Stone cannot be walked on.
#[derive(Clone, Copy, Debug, PartialEq, Eq, Structural)]
pub enum TerrainGround {
    Soil,
    Stone,
}

/// Static object standing on a square. It plays no part in movement.
#[derive(Clone, Copy, Debug, PartialEq, Eq, Structural)]
pub enum TerrainBlock {
    Tree,
    Soil,
    Stone,
}

/// Mobile occupant of a square.
#[derive(Clone, Copy, Debug, PartialEq, Eq, Structural)]
pub enum Being {
    Orc,
    Human,
}

/// One cell: its ground, an optional block and an optional being.
#[derive(Clone, Copy, Debug, PartialEq, Eq)]
pub struct Square {
    pub ground: TerrainGround,
    pub block: Option<TerrainBlock>,
    pub being: Option<Being>,
}

impl Square {
    /// The square every fresh grid is filled with: soil, no block, no being.
    pub open spec fn blank() -> Square {
        Square { ground: TerrainGround::Soil, block: None, being: None }
    }

    /// A being stands on this square.
    pub open spec fn occupied(self) -> bool {
        self.being is Some
    }

    /// The ground of this square is stone.
    pub open spec fn stony(self) -> bool {
        self.ground == TerrainGround::Stone
    }
}

} // verus!

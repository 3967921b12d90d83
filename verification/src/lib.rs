//! A rectangular grid of terrain squares and the rule that decides whether a
//! being standing on one square may step onto a neighbouring one.

pub mod grid;
pub mod movement;
pub mod square;

pub use grid::{Grid, GridView};
pub use movement::{Direction, MovementError};
pub use square::{Being, Square, TerrainBlock, TerrainGround};

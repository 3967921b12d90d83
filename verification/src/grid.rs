//! The grid itself: construction and move validation.

use vstd::prelude::*;
use crate::movement::{non_negative, point, step, Direction, MovementError};
use crate::square::{Square, TerrainGround};

verus! {

/// A grid of `size.0 * size.1` squares kept in one flat vector. The square
/// with coordinate `(x, y)` is stored at position `x * size.0 + y`.
///
/// The fields are open, so a square can be replaced in place; [`Grid::wf`]
/// says what every function here expects of them.
#[derive(Debug)]
pub struct Grid {
    pub size: (usize, usize),
    pub squares: Vec<Square>,
}

/// The mathematical content of a [`Grid`].
pub ghost struct GridView {
    pub width: nat,
    pub height: nat,
    pub squares: Seq<Square>,
}

impl GridView {
    /// There are exactly `width * height` squares.
    pub open spec fn wf(self) -> bool {
        self.squares.len() == self.width * self.height
    }

    /// Position of the square with coordinate `coord` in `squares`.
    pub open spec fn index_of(self, coord: (int, int)) -> int {
        coord.0 * self.width + coord.1
    }

    /// `coord` has no negative component and its position falls inside
    /// `squares`.
    pub open spec fn holds(self, coord: (int, int)) -> bool {
        non_negative(coord) && self.index_of(coord) < self.squares.len()
    }

    /// The square with coordinate `coord`; meaningful where `holds(coord)`.
    pub open spec fn square_at(self, coord: (int, int)) -> Square
        recommends
            self.holds(coord),
    {
        self.squares[self.index_of(coord)]
    }

    /// Outcome of asking to move whatever stands on `from` one step in
    /// direction `dir`. The checks are made in this order: a being must stand
    /// on `from`; the destination must be a square of the grid; its ground
    /// must not be stone; no being may stand on it.
    pub open spec fn verdict(self, from: (int, int), dir: Direction) -> Result<
        (int, int),
        MovementError,
    >
        recommends
            self.holds(from),
    {
        let to = step(from, dir);
        if !self.square_at(from).occupied() {
            Err(MovementError::NoBeingInSquare)
        } else if !self.holds(to) {
            Err(MovementError::SquareOffGrid)
        } else if self.square_at(to).stony() {
            Err(MovementError::StoneTerrain)
        } else if self.square_at(to).occupied() {
            Err(MovementError::SquareOccupied)
        } else {
            Ok(to)
        }
    }
}

impl View for Grid {
    type V = GridView;

    open spec fn view(&self) -> GridView {
        GridView {
            width: self.size.0 as nat,
            height: self.size.1 as nat,
            squares: self.squares@,
        }
    }
}

impl Grid {
    /// The invariant of a grid: it holds one square per coordinate pair.
    pub open spec fn wf(&self) -> bool {
        self@.wf()
    }

    /// The square stored for `coord`, or `None` where the position computed
    /// for `coord` lies beyond the last square.
    fn lookup(&self, coord: (usize, usize)) -> (found: Option<&Square>)
        ensures
            self@.holds(point(coord)) ==> found == Some(&self@.square_at(point(coord))),
            !self@.holds(point(coord)) ==> found is None,
    {
        // the number of squares fits a usize
        assert(self.squares@.len() == self.squares.len());
        let row: usize = match coord.0.checked_mul(self.size.0) {
            Some(r) => r,
            None => { return None; },
        };
        let at: usize = match row.checked_add(coord.1) {
            Some(a) => a,
            None => { return None; },
        };
        if at < self.squares.len() {
            Some(&self.squares[at])
        } else {
            None
        }
    }

    /// Builds a grid of `size_x * size_y` squares, each of them blank. The
    /// number of squares must fit a `usize`.
    pub fn generate_empty(size_x: usize, size_y: usize) -> (grid: Grid)
        requires
            size_x * size_y <= usize::MAX,
        ensures
            grid.wf(),
            grid.size == (size_x, size_y),
            grid.squares@.len() == size_x * size_y,
            forall|i: int| 0 <= i < grid.squares@.len() ==> grid.squares@[i] == Square::blank(),
    {
        let number_of_squares: usize = size_x * size_y;
        let mut squares: Vec<Square> = Vec::with_capacity(number_of_squares);
        let mut made: usize = 0;
        while made < number_of_squares
            invariant
                made <= number_of_squares,
                squares@.len() == made,
                forall|i: int| 0 <= i < made ==> squares@[i] == Square::blank(),
            decreases number_of_squares - made,
        {
            squares.push(Square { ground: TerrainGround::Soil, block: None, being: None });
            made = made + 1;
        }
        Grid { size: (size_x, size_y), squares }
    }

    /// Decides whether the being on `coord` may step in direction `dir`, and
    /// returns the coordinate it would reach. Nothing is moved: the grid is
    /// only read, and the being stays where it was.
    ///
    /// `coord` must name a square of the grid, and where a being stands on it
    /// the step must not lead below zero on either axis.
    pub fn move_being_in_coord(&self, coord: (usize, usize), dir: Direction) -> (result: Result<
        (usize, usize),
        MovementError,
    >)
        requires
            self.wf(),
            self@.holds(point(coord)),
            self@.square_at(point(coord)).occupied() ==> non_negative(step(point(coord), dir)),
        ensures
            // from a square without a being, whatever the direction
            !self@.square_at(point(coord)).occupied()
                ==> result == Err::<(usize, usize), _>(MovementError::NoBeingInSquare),
            // past the last square
            self@.square_at(point(coord)).occupied()
                && !self@.holds(step(point(coord), dir))
                ==> result == Err::<(usize, usize), _>(MovementError::SquareOffGrid),
            // onto stone
            self@.square_at(point(coord)).occupied()
                && self@.holds(step(point(coord), dir))
                && self@.square_at(step(point(coord), dir)).stony()
                ==> result == Err::<(usize, usize), _>(MovementError::StoneTerrain),
            // onto a square where a being stands
            self@.square_at(point(coord)).occupied()
                && self@.holds(step(point(coord), dir))
                && !self@.square_at(step(point(coord), dir)).stony()
                && self@.square_at(step(point(coord), dir)).occupied()
                ==> result == Err::<(usize, usize), _>(MovementError::SquareOccupied),
            // onto free ground that is not stone: the destination comes back
            self@.square_at(point(coord)).occupied()
                && self@.holds(step(point(coord), dir))
                && !self@.square_at(step(point(coord), dir)).stony()
                && !self@.square_at(step(point(coord), dir)).occupied()
                ==> result is Ok && point(result->Ok_0) == step(point(coord), dir),
            // the same, as one value of the model
            match result {
                Ok(to) => self@.verdict(point(coord), dir) == Ok::<_, MovementError>(point(to)),
                Err(e) => self@.verdict(point(coord), dir) == Err::<(int, int), _>(e),
            },
    {
        // the number of squares fits a usize, and so does the position of `coord`
        assert(self.squares@.len() == self.squares.len());
        let from: usize = coord.0 * self.size.0 + coord.1;
        if self.squares[from].being.is_none() {
            return Err(MovementError::NoBeingInSquare);
        }
        proof {
            self@.lemma_coordinates_bounded(point(coord));
        }
        let to: (usize, usize) = match dir {
            Direction::West => (coord.0 - 1, coord.1),
            Direction::East => (coord.0 + 1, coord.1),
            Direction::North => (coord.0, coord.1 - 1),
            Direction::South => (coord.0, coord.1 + 1),
        };
        match self.lookup(to) {
            None => Err(MovementError::SquareOffGrid),
            Some(square) => {
                if square.ground == TerrainGround::Stone {
                    Err(MovementError::StoneTerrain)
                } else if square.being.is_some() {
                    Err(MovementError::SquareOccupied)
                } else {
                    Ok(to)
                }
            },
        }
    }
}

impl GridView {
    /// In a well-formed grid, each component of a coordinate that names a
    /// square is smaller than the number of squares.
    pub proof fn lemma_coordinates_bounded(self, coord: (int, int))
        requires
            self.wf(),
            self.holds(coord),
        ensures
            self.width >= 1,
            coord.0 < self.squares.len(),
            coord.1 < self.squares.len(),
    {
        let w = self.width as int;
        let h = self.height as int;
        assert(w >= 1) by (nonlinear_arith)
            requires
                w >= 0,
                w * h > 0,
        ;
        assert(coord.0 * w >= coord.0) by (nonlinear_arith)
            requires
                w >= 1,
                coord.0 >= 0,
        ;
    }
}

} // verus!

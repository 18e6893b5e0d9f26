//! Discrete positions on the toroidal grid and the four cardinal directions.

use vstd::prelude::*;
use crate::config::{GRID_WIDTH, GRID_HEIGHT};
use crate::rng::rand_i32_range;

verus! {

/// True mathematical modulo: the representative of `a` in `[0, n)`.
pub open spec fn wrap(a: int, n: int) -> int
    recommends
        n > 0,
{
    ((a % n) + n) % n
}

/// A cell of the `GRID_WIDTH x GRID_HEIGHT` toroidal grid.
///
/// Well-formed positions keep both coordinates inside the grid; every move
/// wraps, so well-formedness is preserved by construction.
#[derive(Clone, Copy, PartialEq, Eq, Structural, Debug)]
pub struct GridPosition {
    pub x: i16,
    pub y: i16,
}

/// One of the four cardinal directions.
#[derive(Clone, Copy, PartialEq, Eq, Structural, Debug)]
pub enum Direction {
    Up,
    Down,
    Left,
    Right,
}

impl GridPosition {
    /// Both coordinates lie inside the grid.
    pub open spec fn wf(self) -> bool {
        &&& 0 <= self.x < GRID_WIDTH
        &&& 0 <= self.y < GRID_HEIGHT
    }

    pub fn new(x: i16, y: i16) -> (r: GridPosition)
        ensures
            r.x == x,
            r.y == y,
    {
        GridPosition { x, y }
    }

    /// The neighbour of `pos` one cell over in `dir`, with both coordinates
    /// wrapped into the grid by true mathematical modulo.
    pub open spec fn spec_move(pos: GridPosition, dir: Direction) -> GridPosition {
        match dir {
            Direction::Up => GridPosition { x: pos.x, y: wrap(pos.y - 1, GRID_HEIGHT as int) as i16 },
            Direction::Down => GridPosition { x: pos.x, y: wrap(pos.y + 1, GRID_HEIGHT as int) as i16 },
            Direction::Left => GridPosition { x: wrap(pos.x - 1, GRID_WIDTH as int) as i16, y: pos.y },
            Direction::Right => GridPosition { x: wrap(pos.x + 1, GRID_WIDTH as int) as i16, y: pos.y },
        }
    }

    pub fn new_from_move(pos: GridPosition, dir: Direction) -> (r: GridPosition)
        requires
            pos.wf(),
        ensures
            r == GridPosition::spec_move(pos, dir),
            r.wf(),
    {
        match dir {
            Direction::Up => {
                let y = if pos.y == 0 { GRID_HEIGHT - 1 } else { pos.y - 1 };
                GridPosition::new(pos.x, y)
            }
            Direction::Down => {
                let y = if pos.y == GRID_HEIGHT - 1 { 0 } else { pos.y + 1 };
                GridPosition::new(pos.x, y)
            }
            Direction::Left => {
                let x = if pos.x == 0 { GRID_WIDTH - 1 } else { pos.x - 1 };
                GridPosition::new(x, pos.y)
            }
            Direction::Right => {
                let x = if pos.x == GRID_WIDTH - 1 { 0 } else { pos.x + 1 };
                GridPosition::new(x, pos.y)
            }
        }
    }

    /// A position drawn uniformly from `[0, max_x) x [0, max_y)`.
    pub fn random(max_x: i16, max_y: i16) -> (r: GridPosition)
        requires
            max_x > 0,
            max_y > 0,
        ensures
            0 <= r.x < max_x,
            0 <= r.y < max_y,
    {
        let x = rand_i32_range(0, max_x as i32);
        let y = rand_i32_range(0, max_y as i32);
        GridPosition::new(x as i16, y as i16)
    }
}

/// Moving once in any direction lands back inside the grid: the wraparound
/// law of the toroidal geometry.
pub proof fn lemma_move_wraps(pos: GridPosition, dir: Direction)
    requires
        pos.wf(),
    ensures
        GridPosition::spec_move(pos, dir).wf(),
{
}

impl Direction {
    /// The direction pointing the opposite way.
    pub open spec fn spec_inverse(self) -> Direction {
        match self {
            Direction::Up => Direction::Down,
            Direction::Down => Direction::Up,
            Direction::Left => Direction::Right,
            Direction::Right => Direction::Left,
        }
    }

    pub fn inverse(&self) -> (r: Direction)
        ensures
            r == self.spec_inverse(),
    {
        match *self {
            Direction::Up => Direction::Down,
            Direction::Down => Direction::Up,
            Direction::Left => Direction::Right,
            Direction::Right => Direction::Left,
        }
    }

    /// A direction drawn at random; every call may differ.
    pub fn rand() -> Direction {
        let k = rand_i32_range(0, 4);
        if k == 0 {
            Direction::Up
        } else if k == 1 {
            Direction::Down
        } else if k == 2 {
            Direction::Left
        } else {
            Direction::Right
        }
    }
}

/// Inversion is an involution: applying it twice gives the direction back.
pub proof fn lemma_inverse_involution(dir: Direction)
    ensures
        dir.spec_inverse().spec_inverse() == dir,
{
}

} // verus!

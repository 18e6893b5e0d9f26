//! The keyboard-steered player marker.

use vstd::prelude::*;
use crate::movement::{Direction, GridPosition};

verus! {

/// A marker that walks one cell per tick in its current direction, steered
/// by the input layer through `set_dir`.
#[derive(Clone, Copy, PartialEq, Eq, Structural, Debug)]
pub struct Player {
    pub pos: GridPosition,
    pub dir: Direction,
    pub last_update_dir: Direction,
}

impl Player {
    pub fn new(pos: GridPosition) -> (p: Player)
        ensures
            p.pos == pos,
            p.dir == Direction::Right,
            p.last_update_dir == Direction::Right,
    {
        Player { pos, dir: Direction::Right, last_update_dir: Direction::Right }
    }

    /// Steers the next update; the position does not move until then.
    pub fn set_dir(&mut self, dir: Direction)
        ensures
            final(self).dir == dir,
            final(self).pos == old(self).pos,
            final(self).last_update_dir == old(self).last_update_dir,
    {
        self.dir = dir;
    }

    /// One tick of movement: one cell in the current direction, wrapping at
    /// the grid's edges.
    pub fn update(&mut self)
        requires
            old(self).pos.wf(),
        ensures
            final(self).pos == GridPosition::spec_move(old(self).pos, old(self).dir),
            final(self).pos.wf(),
            final(self).dir == old(self).dir,
            final(self).last_update_dir == old(self).dir,
    {
        let new_pos = GridPosition::new_from_move(self.pos, self.dir);
        self.pos = new_pos;
        self.last_update_dir = self.dir;
    }
}

} // verus!

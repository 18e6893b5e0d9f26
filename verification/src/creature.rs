//! A wandering creature that walks in a freshly drawn direction each tick.

use vstd::prelude::*;
use crate::movement::{Direction, GridPosition};

verus! {

/// A decorative creature: every tick it draws a random direction and walks
/// one cell that way, wrapping at the grid's edges.
#[derive(Clone, Copy, PartialEq, Eq, Structural, Debug)]
pub struct Creature {
    pub pos: GridPosition,
    pub dir: Direction,
}

impl Creature {
    pub fn new(pos: GridPosition) -> (c: Creature)
        ensures
            c.pos == pos,
            c.dir == Direction::Right,
    {
        Creature { pos, dir: Direction::Right }
    }

    /// Draws a fresh direction; the position stays.
    pub fn randomize_direction(&mut self)
        ensures
            final(self).pos == old(self).pos,
    {
        self.dir = Direction::rand();
    }

    /// One tick: a fresh random direction, then one cell that way.
    pub fn update(&mut self)
        requires
            old(self).pos.wf(),
        ensures
            final(self).pos == GridPosition::spec_move(old(self).pos, final(self).dir),
            final(self).pos.wf(),
    {
        self.randomize_direction();
        let new_pos = GridPosition::new_from_move(self.pos, self.dir);
        self.pos = new_pos;
    }
}

} // verus!

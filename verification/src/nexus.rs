//! The nexus: the fixed defended region enemies try to reach.

use vstd::prelude::*;
use crate::movement::GridPosition;

verus! {

/// A fixed axis-aligned region of the grid, bounds inclusive. It is stateless
/// aside from its bounds and is used only as a predicate.
#[derive(Clone, Copy, PartialEq, Eq, Structural, Debug)]
pub struct Nexus {
    pub min_x: i16,
    pub min_y: i16,
    pub max_x: i16,
    pub max_y: i16,
}

impl Nexus {
    /// `p` lies inside the region.
    pub open spec fn spec_contains(self, p: GridPosition) -> bool {
        &&& self.min_x <= p.x <= self.max_x
        &&& self.min_y <= p.y <= self.max_y
    }

    pub fn new(min_x: i16, min_y: i16, max_x: i16, max_y: i16) -> (n: Nexus)
        ensures
            n.min_x == min_x,
            n.min_y == min_y,
            n.max_x == max_x,
            n.max_y == max_y,
    {
        Nexus { min_x, min_y, max_x, max_y }
    }

    /// True iff an enemy standing at `pos` has reached the nexus.
    pub fn is_enemy_in(&self, pos: GridPosition) -> (r: bool)
        ensures
            r == self.spec_contains(pos),
    {
        self.min_x <= pos.x && pos.x <= self.max_x && self.min_y <= pos.y && pos.y <= self.max_y
    }
}

} // verus!

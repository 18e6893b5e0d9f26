//! Towers: fixed emplacements that damage the front of the enemy queue.

use vstd::prelude::*;
use crate::arith::sat32;
use crate::movement::GridPosition;

verus! {

/// A tower at a fixed grid position with an upgradeable level. At level 0 it
/// deals no damage; each upgrade raises the level by one and the next upgrade
/// grows quadratically more expensive.
#[derive(Clone, Copy, PartialEq, Eq, Structural, Debug)]
pub struct Tower {
    pub position: GridPosition,
    pub level: i32,
}

/// The honey needed to upgrade from `level`: `(level^2 + 1) * 100`, clamped
/// to the machine range.
pub open spec fn spec_upgrade_cost(level: int) -> int {
    sat32((level * level + 1) * 100)
}

/// The damage a tower of `level` deals each tick: `2 * level`, clamped to the
/// machine range.
pub open spec fn spec_tower_damage(level: int) -> int {
    sat32(2 * level)
}

impl Tower {
    /// The position is on the grid and the level never goes negative.
    pub open spec fn wf(self) -> bool {
        &&& self.position.wf()
        &&& self.level >= 0
    }

    /// The click at `p` lands within the tower's bounding rectangle: one cell
    /// around its position, bounds inclusive.
    pub open spec fn spec_hit(self, p: GridPosition) -> bool {
        &&& self.position.x - 1 <= p.x <= self.position.x + 1
        &&& self.position.y - 1 <= p.y <= self.position.y + 1
    }

    pub fn new(position: GridPosition) -> (t: Tower)
        ensures
            t.position == position,
            t.level == 0,
    {
        Tower { position, level: 0 }
    }

    /// The cost of the next upgrade.
    pub fn honey_to_upgrade(&self) -> (c: i32)
        requires
            self.level >= 0,
        ensures
            c as int == spec_upgrade_cost(self.level as int),
            c >= 100,
    {
        if self.level <= 4634 {
            proof {
                assert(self.level * self.level <= 4634 * 4634) by (nonlinear_arith)
                    requires
                        0 <= self.level <= 4634,
                ;
                assert(self.level * self.level >= 0) by (nonlinear_arith)
                    requires
                        self.level >= 0,
                ;
            }
            (self.level * self.level + 1) * 100
        } else {
            proof {
                assert(self.level * self.level >= 4635 * 4635) by (nonlinear_arith)
                    requires
                        self.level >= 4635,
                ;
            }
            i32::MAX
        }
    }

    /// True iff a pointer click at `click_pos` lands on this tower.
    pub fn is_clicking_on(&self, click_pos: GridPosition) -> (r: bool)
        requires
            self.wf(),
        ensures
            r == self.spec_hit(click_pos),
    {
        self.position.x - 1 <= click_pos.x && click_pos.x <= self.position.x + 1
            && self.position.y - 1 <= click_pos.y && click_pos.y <= self.position.y + 1
    }

    /// The damage this tower contributes each tick.
    pub fn get_damage(&self) -> (d: i32)
        requires
            self.level >= 0,
        ensures
            d as int == spec_tower_damage(self.level as int),
            d >= 0,
    {
        if self.level <= i32::MAX / 2 {
            2 * self.level
        } else {
            i32::MAX
        }
    }

    /// Raises the level by one, unconditionally: affordability is the
    /// caller's decision.
    pub fn upgrade(&mut self)
        requires
            old(self).level < i32::MAX,
        ensures
            final(self).level == old(self).level + 1,
            final(self).position == old(self).position,
    {
        self.level = self.level + 1;
    }
}

} // verus!

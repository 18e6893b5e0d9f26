//! Enemies: path-following creatures with health, difficulty and a reward.

use vstd::prelude::*;
use crate::config::HARDNESS_CAP;
use crate::movement::{Direction, GridPosition};
use crate::rng::rand_i32_range;

verus! {

/// Number of checkpoints on the fixed path every enemy walks.
pub const PATH_LEN: usize = 7;

/// Every enemy enters the grid here.
pub open spec fn spec_start_position() -> GridPosition {
    GridPosition { x: 0, y: 4 }
}

/// The fixed ordered checkpoint table, shared by all enemies.
pub open spec fn spec_checkpoint(i: int) -> GridPosition
    recommends
        0 <= i < PATH_LEN,
{
    if i == 0 {
        GridPosition { x: 55, y: 4 }
    } else if i == 1 {
        GridPosition { x: 55, y: 27 }
    } else if i == 2 {
        GridPosition { x: 7, y: 27 }
    } else if i == 3 {
        GridPosition { x: 7, y: 10 }
    } else if i == 4 {
        GridPosition { x: 47, y: 10 }
    } else if i == 5 {
        GridPosition { x: 47, y: 18 }
    } else {
        GridPosition { x: 14, y: 18 }
    }
}

/// The checkpoint an enemy with `checkpoint_index == i` is walking toward.
pub fn checkpoint(i: usize) -> (r: GridPosition)
    requires
        i < PATH_LEN,
    ensures
        r == spec_checkpoint(i as int),
        r.wf(),
{
    if i == 0 {
        GridPosition::new(55, 4)
    } else if i == 1 {
        GridPosition::new(55, 27)
    } else if i == 2 {
        GridPosition::new(7, 27)
    } else if i == 3 {
        GridPosition::new(7, 10)
    } else if i == 4 {
        GridPosition::new(47, 10)
    } else if i == 5 {
        GridPosition::new(47, 18)
    } else {
        GridPosition::new(14, 18)
    }
}

/// A wave creature. It walks the checkpoint path one cell per tick, dies when
/// its health reaches zero or below, and breaches the nexus if it gets there.
///
/// Once `checkpoint_index` has passed the end of the path the enemy is
/// treated as having arrived: it stops moving and the breach check counts it
/// as breaching. This makes the end of the path explicit instead of leaving
/// it undefined.
#[derive(Clone, Copy, PartialEq, Eq, Structural, Debug)]
pub struct Enemy {
    pub checkpoint_index: usize,
    pub position: GridPosition,
    pub health: i32,
    pub hardness: i32,
}

impl Enemy {
    /// The position is on the grid, the checkpoint index is clamped to the
    /// path, and the difficulty lies in the range every reward product fits.
    pub open spec fn wf(self) -> bool {
        &&& self.position.wf()
        &&& self.checkpoint_index <= PATH_LEN
        &&& 0 <= self.hardness <= HARDNESS_CAP
    }

    /// The enemy has walked the whole path without being removed.
    pub open spec fn spec_finished(self) -> bool {
        self.checkpoint_index >= PATH_LEN
    }

    /// Which way the enemy walks this tick: the horizontal correction toward
    /// its checkpoint first, the vertical one second, `None` on arrival (or
    /// once the path is exhausted).
    pub open spec fn spec_direction(self) -> Option<Direction> {
        if self.spec_finished() {
            None
        } else {
            let c = spec_checkpoint(self.checkpoint_index as int);
            if self.position.x < c.x {
                Some(Direction::Right)
            } else if self.position.x > c.x {
                Some(Direction::Left)
            } else if self.position.y < c.y {
                Some(Direction::Down)
            } else if self.position.y > c.y {
                Some(Direction::Up)
            } else {
                None
            }
        }
    }

    /// One tick of path-following: reaching a checkpoint consumes the whole
    /// tick (the index advances, the position stays), otherwise the enemy
    /// moves one cell toward the checkpoint.
    pub open spec fn spec_step(self) -> Enemy {
        match self.spec_direction() {
            Option::Some(dir) => Enemy {
                position: GridPosition::spec_move(self.position, dir),
                ..self
            },
            Option::None => {
                if self.checkpoint_index < PATH_LEN {
                    Enemy { checkpoint_index: (self.checkpoint_index + 1) as usize, ..self }
                } else {
                    self
                }
            }
        }
    }

    pub fn new(hardness: i32, health: i32) -> (e: Enemy)
        ensures
            e.checkpoint_index == 0,
            e.position == spec_start_position(),
            e.health == health,
            e.hardness == hardness,
    {
        Enemy { checkpoint_index: 0, position: GridPosition::new(0, 4), health, hardness }
    }

    pub fn get_direction(&self) -> (r: Option<Direction>)
        ensures
            r == self.spec_direction(),
    {
        if self.checkpoint_index >= PATH_LEN {
            return None;
        }
        let c = checkpoint(self.checkpoint_index);
        if self.position.x < c.x {
            Some(Direction::Right)
        } else if self.position.x > c.x {
            Some(Direction::Left)
        } else if self.position.y < c.y {
            Some(Direction::Down)
        } else if self.position.y > c.y {
            Some(Direction::Up)
        } else {
            None
        }
    }

    fn step(&mut self)
        requires
            old(self).wf(),
        ensures
            *final(self) == old(self).spec_step(),
            final(self).wf(),
    {
        let dir = self.get_direction();
        match dir {
            Some(d) => {
                self.position = GridPosition::new_from_move(self.position, d);
            }
            None => {
                if self.checkpoint_index < PATH_LEN {
                    self.checkpoint_index = self.checkpoint_index + 1;
                }
            }
        }
    }

    /// One simulation tick of movement, independent of every other enemy.
    pub fn update(&mut self)
        requires
            old(self).wf(),
        ensures
            *final(self) == old(self).spec_step(),
            final(self).wf(),
    {
        self.step()
    }

    /// Subtracts `reduce_by` from health; the caller treats `health <= 0` as
    /// dead.
    pub fn reduce_health(&mut self, reduce_by: i32)
        requires
            i32::MIN <= old(self).health - reduce_by <= i32::MAX,
        ensures
            final(self).health == old(self).health - reduce_by,
            final(self).position == old(self).position,
            final(self).checkpoint_index == old(self).checkpoint_index,
            final(self).hardness == old(self).hardness,
    {
        self.health = self.health - reduce_by;
    }

    pub fn get_health(&self) -> (h: i32)
        ensures
            h == self.health,
    {
        self.health
    }

    /// The honey paid out for this kill: the spawn-time difficulty scaled by
    /// a fresh noise factor in `[70, 130)`.
    pub fn get_honey_reward(&self) -> (r: i32)
        requires
            0 <= self.hardness <= HARDNESS_CAP,
        ensures
            reward_ok(*self, r as int),
            r >= 0,
    {
        let noise = rand_i32_range(70, 130);
        proof {
            assert(self.hardness * noise <= HARDNESS_CAP * 129) by (nonlinear_arith)
                requires
                    0 <= self.hardness <= HARDNESS_CAP,
                    70 <= noise < 130,
            ;
            assert(self.hardness * noise >= 0) by (nonlinear_arith)
                requires
                    self.hardness >= 0,
                    noise >= 70,
            ;
            assert(scaled_reward(self.hardness as int, noise as int) == self.hardness * noise);
        }
        self.hardness * noise
    }

    pub fn is_alive(&self) -> (r: bool)
        ensures
            r == (self.health > 0),
    {
        self.health > 0
    }

    pub fn get_position(&self) -> (p: GridPosition)
        ensures
            p == self.position,
    {
        self.position
    }
}

/// A difficulty `h` scaled by a noise factor `n`.
pub open spec fn scaled_reward(h: int, n: int) -> int {
    h * n
}

/// `r` is a reward this enemy can pay out: its difficulty times a noise
/// factor from `[70, 130)`.
pub open spec fn reward_ok(e: Enemy, r: int) -> bool {
    exists|n: int| 70 <= n < 130 && r == #[trigger] scaled_reward(e.hardness as int, n)
}

} // verus!

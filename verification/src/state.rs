//! The simulation aggregate and the tick algorithm.

use vstd::prelude::*;
use crate::arith::{sat32, sat_add_i32};
use crate::config::{
    ESCALATION_PERIOD, HARDNESS_CAP, NEXUS_MAX_X, NEXUS_MAX_Y, NEXUS_MIN_X, NEXUS_MIN_Y,
    SPAWN_PERIOD, STARTING_HONEY, STARTING_LIVES,
};
use crate::enemy::{reward_ok, Enemy, PATH_LEN};
use crate::game::{
    advance_queue, apply_damage, credit_kills, honey_after, queue_ok, score_after, spawn_enemy,
    spawned_ok, spec_advance, spec_damaged, spec_kills, sum_damage, total_damage_of, towers_ok,
};
use crate::movement::GridPosition;
use crate::nexus::Nexus;
use crate::tower::{spec_upgrade_cost, Tower};

verus! {

/// The whole simulation: enemy queue (front first), tower list, nexus and the
/// economy counters. All mutable state of a session lives here and is mutated
/// only through the methods below.
pub struct GameState {
    pub enemies: Vec<Enemy>,
    pub towers: Vec<Tower>,
    pub nexus: Nexus,
    pub score: i32,
    pub honey: i32,
    pub lives: i32,
    pub tick_counter: i32,
    pub hardness: i32,
    pub gameover: bool,
}

/// The difficulty scalar grows on every positive multiple of the escalation
/// period.
pub open spec fn esc_due(t: int) -> bool {
    t > 0 && t % (ESCALATION_PERIOD as int) == 0
}

/// An enemy is spawned on every multiple of the spawn period, tick 0
/// included.
pub open spec fn spawn_due(t: int) -> bool {
    t % (SPAWN_PERIOD as int) == 0
}

/// The difficulty after the escalation step of a tick whose counter is `t`:
/// one more when due, held at the cap.
pub open spec fn next_hardness(t: int, h: int) -> int {
    if esc_due(t) && h < HARDNESS_CAP {
        h + 1
    } else {
        h
    }
}

/// Difficulty monotonicity: across a tick the difficulty never goes down; on
/// a tick whose counter is a positive multiple of the escalation period it
/// grows by exactly one (below the cap), and on every other tick it stays.
pub proof fn lemma_hardness_escalation(t: int, h: int)
    ensures
        next_hardness(t, h) >= h,
        esc_due(t) && h < HARDNESS_CAP ==> next_hardness(t, h) == h + 1,
        !esc_due(t) ==> next_hardness(t, h) == h,
{
}

/// The front enemy breaches when it stands inside the nexus, or when it has
/// walked the whole path (the explicit end-of-path rule).
pub open spec fn spec_breaches(n: Nexus, e: Enemy) -> bool {
    n.spec_contains(e.position) || e.spec_finished()
}

/// How the queue, the lives and the loss flag of `post` follow from the
/// queue `q3` as it stands after damage and spawning: the front enemy is
/// popped and one life is lost iff it breaches, and the session is lost iff
/// the lives are gone.
pub open spec fn queue_and_lives_ok(pre: GameState, q3: Seq<Enemy>, post: GameState) -> bool {
    let breach = q3.len() > 0 && spec_breaches(pre.nexus, q3[0]);
    &&& post.enemies@ == (if breach {
        q3.skip(1)
    } else {
        q3
    })
    &&& post.lives as int == (if breach {
        pre.lives - 1
    } else {
        pre.lives as int
    })
    &&& post.gameover == (post.lives <= 0)
}

/// Everything one active tick does, short of advancing the tick counter:
/// enemies advance, the summed tower damage lands front-to-back, each kill is
/// credited with a drawn reward, difficulty escalates when due, an enemy
/// spawns when due, and the front enemy is checked for a breach.
pub open spec fn tick_rel(pre: GameState, post: GameState) -> bool {
    let q1 = spec_advance(pre.enemies@);
    let d = sat32(sum_damage(pre.towers@));
    let q2 = spec_damaged(q1, d);
    let killed = q1.take(spec_kills(q1, d));
    let h2 = next_hardness(pre.tick_counter as int, pre.hardness as int);
    &&& post.hardness == h2
    &&& (if spawn_due(pre.tick_counter as int) {
        exists|e: Enemy| #[trigger] spawned_ok(h2, e) && queue_and_lives_ok(pre, q2.push(e), post)
    } else {
        queue_and_lives_ok(pre, q2, post)
    })
    &&& (exists|rs: Seq<int>|
        {
            &&& rs.len() == killed.len()
            &&& (forall|i: int| 0 <= i < killed.len() ==> reward_ok(killed[i], #[trigger] rs[i]))
            &&& post.score as int == #[trigger] score_after(pre.score as int, rs)
            &&& post.honey as int == honey_after(pre.honey as int, rs)
        })
}

/// How an upgrade attempt on the tower at index `j` changes the state: when
/// the honey covers the cost (and the level is below the machine ceiling),
/// the cost is deducted and the level grows by one; otherwise nothing
/// changes. No other field ever moves.
pub open spec fn upgrade_effect(pre: GameState, j: int, post: GameState) -> bool {
    let t = pre.towers@[j];
    let cost = spec_upgrade_cost(t.level as int);
    &&& post.enemies@ == pre.enemies@
    &&& post.nexus == pre.nexus
    &&& post.score == pre.score
    &&& post.lives == pre.lives
    &&& post.tick_counter == pre.tick_counter
    &&& post.hardness == pre.hardness
    &&& post.gameover == pre.gameover
    &&& (if pre.honey >= cost && t.level < i32::MAX {
        post.towers@ == pre.towers@.update(
            j,
            (Tower { position: t.position, level: (t.level + 1) as i32 }),
        ) && post.honey == pre.honey - cost
    } else {
        post.towers@ == pre.towers@ && post.honey == pre.honey
    })
}

impl GameState {
    /// The state is well formed: every enemy on the grid and alive, every
    /// tower on the grid at a non-negative level, the counters in their
    /// ranges, and at least one life as long as the session is not lost.
    pub open spec fn wf(self) -> bool {
        &&& queue_ok(self.enemies@)
        &&& towers_ok(self.towers@)
        &&& 1 <= self.hardness <= HARDNESS_CAP
        &&& 0 <= self.tick_counter
        &&& 0 <= self.score
        &&& 0 <= self.honey
        &&& (!self.gameover ==> self.lives >= 1)
    }

    /// A fresh session: empty queue, no towers, the default nexus, starting
    /// economy, difficulty one, tick zero.
    pub fn new() -> (gs: GameState)
        ensures
            gs.enemies@.len() == 0,
            gs.towers@.len() == 0,
            gs.nexus == (Nexus {
                min_x: NEXUS_MIN_X,
                min_y: NEXUS_MIN_Y,
                max_x: NEXUS_MAX_X,
                max_y: NEXUS_MAX_Y,
            }),
            gs.score == 0,
            gs.honey == STARTING_HONEY,
            gs.lives == STARTING_LIVES,
            gs.tick_counter == 0,
            gs.hardness == 1,
            !gs.gameover,
            gs.wf(),
    {
        GameState {
            enemies: Vec::new(),
            towers: Vec::new(),
            nexus: Nexus::new(NEXUS_MIN_X, NEXUS_MIN_Y, NEXUS_MAX_X, NEXUS_MAX_Y),
            score: 0,
            honey: STARTING_HONEY,
            lives: STARTING_LIVES,
            tick_counter: 0,
            hardness: 1,
            gameover: false,
        }
    }

    /// Places a tower at `position`, at level zero.
    pub fn add_tower(&mut self, position: GridPosition)
        requires
            position.wf(),
        ensures
            final(self).towers@ == old(self).towers@.push((Tower { position, level: 0 })),
            final(self).enemies@ == old(self).enemies@,
            final(self).nexus == old(self).nexus,
            final(self).score == old(self).score,
            final(self).honey == old(self).honey,
            final(self).lives == old(self).lives,
            final(self).tick_counter == old(self).tick_counter,
            final(self).hardness == old(self).hardness,
            final(self).gameover == old(self).gameover,
            old(self).wf() ==> final(self).wf(),
    {
        let t = Tower::new(position);
        self.towers.push(t);
    }

    /// One simulation tick.
    ///
    /// When the session is already lost, only the tick counter advances.
    /// Otherwise the whole tick relation `tick_rel` holds between the old and
    /// the new state, and the difficulty never goes down.
    pub fn simulate_tick(&mut self)
        requires
            old(self).wf(),
        ensures
            final(self).wf(),
            final(self).tick_counter as int == sat32(old(self).tick_counter + 1),
            final(self).towers@ == old(self).towers@,
            final(self).nexus == old(self).nexus,
            final(self).hardness >= old(self).hardness,
            old(self).gameover ==> {
                &&& final(self).gameover
                &&& final(self).score == old(self).score
                &&& final(self).honey == old(self).honey
                &&& final(self).lives == old(self).lives
                &&& final(self).hardness == old(self).hardness
                &&& final(self).enemies@ == old(self).enemies@
            },
            !old(self).gameover ==> tick_rel(*old(self), *final(self)),
    {
        let ghost pre = *old(self);
        let ghost mut gq1: Seq<Enemy> = Seq::empty();
        let ghost mut gq3: Seq<Enemy> = Seq::empty();
        let ghost mut grs: Seq<int> = Seq::empty();
        let ghost mut gkilled: Seq<Enemy> = Seq::empty();
        if !self.gameover {
            advance_queue(&mut self.enemies);
            proof {
                gq1 = self.enemies@;
            }
            let dmg = total_damage_of(&self.towers);
            let killed = apply_damage(&mut self.enemies, dmg);
            let rewards = credit_kills(&mut self.score, &mut self.honey, &killed);
            proof {
                grs = rewards@;
                gkilled = killed@;
            }
            if self.tick_counter > 0 && self.tick_counter % ESCALATION_PERIOD == 0
                && self.hardness < HARDNESS_CAP {
                self.hardness = self.hardness + 1;
            }
            proof {
                assert(self.hardness as int == next_hardness(
                    pre.tick_counter as int,
                    pre.hardness as int,
                ));
            }
            if self.tick_counter % SPAWN_PERIOD == 0 {
                spawn_enemy(&mut self.enemies, self.hardness);
            }
            proof {
                gq3 = self.enemies@;
            }
            if self.enemies.len() > 0 {
                let front = self.enemies[0];
                let breached = self.nexus.is_enemy_in(front.position)
                    || front.checkpoint_index >= PATH_LEN;
                if breached {
                    self.lives = self.lives - 1;
                    self.enemies.remove(0);
                    proof {
                        assert(self.enemies@ =~= gq3.skip(1));
                        assert(queue_ok(self.enemies@));
                    }
                }
            }
            self.gameover = self.lives <= 0;
        }
        self.tick_counter = sat_add_i32(self.tick_counter, 1);
        proof {
            if !pre.gameover {
                let d = sat32(sum_damage(pre.towers@));
                let q2 = spec_damaged(gq1, d);
                let h2 = next_hardness(pre.tick_counter as int, pre.hardness as int);
                assert(gkilled == gq1.take(spec_kills(gq1, d)));
                assert(self.score as int == score_after(pre.score as int, grs));
                assert(self.honey as int == honey_after(pre.honey as int, grs));
                if spawn_due(pre.tick_counter as int) {
                    let e = gq3.last();
                    assert(spawned_ok(h2, e));
                    assert(gq3 == q2.push(e));
                    assert(queue_and_lives_ok(pre, q2.push(e), *self));
                } else {
                    assert(gq3 == q2);
                    assert(queue_and_lives_ok(pre, q2, *self));
                }
                assert(tick_rel(pre, *self));
            }
        }
    }

    /// Attempts the upgrade of the tower at index `i`: when the honey covers
    /// the cost (and the level is not at the absolute machine ceiling), the
    /// cost is deducted and the level grows by one; otherwise the command is
    /// silently ignored and nothing changes.
    pub fn try_upgrade(&mut self, i: usize)
        requires
            old(self).wf(),
            i < old(self).towers@.len(),
        ensures
            final(self).wf(),
            upgrade_effect(*old(self), i as int, *final(self)),
    {
        let t = self.towers[i];
        let cost = t.honey_to_upgrade();
        if self.honey >= cost && t.level < i32::MAX {
            self.honey = self.honey - cost;
            let mut t2 = t;
            t2.upgrade();
            self.towers[i] = t2;
        }
    }

    /// Routes a pointer click to the first tower whose bounds it lands in and
    /// attempts its upgrade; with no tower under the click nothing changes.
    /// Returns the index of the tower the click landed on, if any.
    pub fn upgrade_tower_at(&mut self, click: GridPosition) -> (hit: Option<usize>)
        requires
            old(self).wf(),
        ensures
            final(self).wf(),
            hit is None ==> (forall|k: int|
                0 <= k < old(self).towers@.len() ==> !(#[trigger] old(self).towers@[k]).spec_hit(
                    click,
                )) && *final(self) == *old(self),
            hit matches Some(j) ==> {
                &&& j < old(self).towers@.len()
                &&& old(self).towers@[j as int].spec_hit(click)
                &&& (forall|k: int|
                    0 <= k < j ==> !(#[trigger] old(self).towers@[k]).spec_hit(click))
                &&& upgrade_effect(*old(self), j as int, *final(self))
            },
    {
        let n = self.towers.len();
        let mut i: usize = 0;
        while i < n
            invariant
                i <= n,
                n == self.towers@.len(),
                *self == *old(self),
                forall|k: int| 0 <= k < i ==> !(#[trigger] self.towers@[k]).spec_hit(click),
                self.wf(),
            decreases n - i,
        {
            let t = self.towers[i];
            if t.is_clicking_on(click) {
                self.try_upgrade(i);
                return Some(i);
            }
            i = i + 1;
        }
        None
    }

    /// The summed per-tick damage of all towers.
    pub fn total_tower_damage(&self) -> (d: i32)
        requires
            towers_ok(self.towers@),
        ensures
            d as int == sat32(sum_damage(self.towers@)),
            d >= 0,
    {
        total_damage_of(&self.towers)
    }
}

} // verus!

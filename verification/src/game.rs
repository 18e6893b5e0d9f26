//! The queue algorithms of the tick: advancing, damage, crediting, spawning.
//!
//! The simulation aggregate itself and the tick algorithm that composes these
//! steps live in the `state` module.

use vstd::prelude::*;
use crate::arith::{sat32, sat_add_i32};
use crate::config::HARDNESS_CAP;
use crate::enemy::{reward_ok, spec_start_position, Enemy};
use crate::rng::rand_i32_range;
use crate::tower::{spec_tower_damage, Tower};

verus! {

/// Every enemy of the queue is well-formed and alive.
pub open spec fn queue_ok(q: Seq<Enemy>) -> bool {
    forall|i: int| 0 <= i < q.len() ==> (#[trigger] q[i]).wf() && q[i].health > 0
}

/// Every tower of the list is well-formed.
pub open spec fn towers_ok(ts: Seq<Tower>) -> bool {
    forall|i: int| 0 <= i < ts.len() ==> (#[trigger] ts[i]).wf()
}

/// The sum of the enemies' healths.
pub open spec fn health_sum(q: Seq<Enemy>) -> int
    decreases q.len(),
{
    if q.len() == 0 {
        0
    } else {
        q[0].health + health_sum(q.skip(1))
    }
}

/// The sum of the towers' per-tick damages.
pub open spec fn sum_damage(ts: Seq<Tower>) -> int
    decreases ts.len(),
{
    if ts.len() == 0 {
        0
    } else {
        spec_tower_damage(ts[0].level as int) + sum_damage(ts.skip(1))
    }
}

/// How many front enemies `d` damage kills outright: the longest prefix whose
/// cumulative health fits within `d`.
pub open spec fn spec_kills(q: Seq<Enemy>, d: int) -> int
    decreases q.len(),
{
    if q.len() == 0 || d < q[0].health {
        0
    } else {
        1 + spec_kills(q.skip(1), d - q[0].health)
    }
}

/// The queue after `d` damage lands front-to-back: killed front enemies are
/// gone, the first survivor has absorbed the leftover, everyone behind it is
/// untouched.
pub open spec fn spec_damaged(q: Seq<Enemy>, d: int) -> Seq<Enemy>
    decreases q.len(),
{
    if q.len() == 0 || d <= 0 {
        q
    } else if d < q[0].health {
        q.update(0, Enemy { health: (q[0].health - d) as i32, ..q[0] })
    } else {
        spec_damaged(q.skip(1), d - q[0].health)
    }
}

/// Advances every enemy of the queue by one step.
pub open spec fn spec_advance(q: Seq<Enemy>) -> Seq<Enemy> {
    q.map_values(|e: Enemy| e.spec_step())
}

/// The score after crediting each reward of `rs` in order, each addition
/// clamped to the machine range.
pub open spec fn score_after(s: int, rs: Seq<int>) -> int
    decreases rs.len(),
{
    if rs.len() == 0 {
        s
    } else {
        score_after(sat32(s + 3 * rs[0]), rs.skip(1))
    }
}

/// The honey after crediting each reward of `rs` in order, each addition
/// clamped to the machine range.
pub open spec fn honey_after(h: int, rs: Seq<int>) -> int
    decreases rs.len(),
{
    if rs.len() == 0 {
        h
    } else {
        honey_after(sat32(h + rs[0]), rs.skip(1))
    }
}

/// Crediting one more reward at the back folds onto the accumulated credit.
pub proof fn lemma_credit_push(s: int, h: int, rs: Seq<int>, r: int)
    ensures
        score_after(s, rs.push(r)) == sat32(score_after(s, rs) + 3 * r),
        honey_after(h, rs.push(r)) == sat32(honey_after(h, rs) + r),
    decreases rs.len(),
{
    assert(rs.push(r).len() == rs.len() + 1);
    if rs.len() == 0 {
        assert(rs.push(r)[0] == r);
        assert(rs.push(r).skip(1) =~= Seq::<int>::empty());
        assert(score_after(s, rs.push(r)) == score_after(sat32(s + 3 * r), rs.push(r).skip(1)));
        assert(score_after(sat32(s + 3 * r), Seq::<int>::empty()) == sat32(s + 3 * r));
        assert(score_after(s, rs) == s);
        assert(honey_after(h, rs.push(r)) == honey_after(sat32(h + r), rs.push(r).skip(1)));
        assert(honey_after(sat32(h + r), Seq::<int>::empty()) == sat32(h + r));
        assert(honey_after(h, rs) == h);
    } else {
        assert(rs.push(r)[0] == rs[0]);
        assert(rs.push(r).skip(1) =~= rs.skip(1).push(r));
        lemma_credit_push(sat32(s + 3 * rs[0]), sat32(h + rs[0]), rs.skip(1), r);
        assert(score_after(s, rs.push(r)) == score_after(sat32(s + 3 * rs[0]), rs.skip(1).push(r)));
        assert(score_after(s, rs) == score_after(sat32(s + 3 * rs[0]), rs.skip(1)));
        assert(honey_after(h, rs.push(r)) == honey_after(sat32(h + rs[0]), rs.skip(1).push(r)));
        assert(honey_after(h, rs) == honey_after(sat32(h + rs[0]), rs.skip(1)));
    }
}

/// Reward crediting: one kill with reward `r` raises the score by exactly
/// `3 * r` and the honey by exactly `r`, as long as neither counter reaches
/// the machine ceiling.
pub proof fn lemma_reward_crediting(s: int, c: int, r: int)
    requires
        0 <= r,
        i32::MIN <= s,
        s + 3 * r <= i32::MAX,
        i32::MIN <= c,
        c + r <= i32::MAX,
    ensures
        score_after(s, seq![r]) == s + 3 * r,
        honey_after(c, seq![r]) == c + r,
{
    assert(seq![r].skip(1) =~= Seq::<int>::empty());
    assert(score_after(sat32(s + 3 * r), Seq::<int>::empty()) == sat32(s + 3 * r));
    assert(honey_after(sat32(c + r), Seq::<int>::empty()) == sat32(c + r));
}

/// The kill count stays within the queue.
pub proof fn lemma_kills_bounds(q: Seq<Enemy>, d: int)
    ensures
        0 <= spec_kills(q, d) <= q.len(),
    decreases q.len(),
{
    if q.len() != 0 && d >= q[0].health {
        lemma_kills_bounds(q.skip(1), d - q[0].health);
    }
}

/// The healths of a live queue sum to something non-negative.
pub proof fn lemma_health_sum_nonneg(q: Seq<Enemy>)
    requires
        queue_ok(q),
    ensures
        health_sum(q) >= 0,
    decreases q.len(),
{
    if q.len() > 0 {
        assert(queue_ok(q.skip(1)));
        lemma_health_sum_nonneg(q.skip(1));
    }
}

/// Damage conservation: landing `d` damage removes exactly
/// `min(d, health_sum(q))` from the queue's total health — no damage is lost
/// and none is invented.
pub proof fn lemma_damage_conservation(q: Seq<Enemy>, d: int)
    requires
        d >= 0,
        queue_ok(q),
    ensures
        health_sum(spec_damaged(q, d)) == health_sum(q) - vstd::math::min(d, health_sum(q)),
    decreases q.len(),
{
    if q.len() == 0 {
    } else if d == 0 {
        lemma_health_sum_nonneg(q);
    } else if d < q[0].health {
        let q2 = q.update(0, Enemy { health: (q[0].health - d) as i32, ..q[0] });
        assert(q2.skip(1) =~= q.skip(1));
        assert(queue_ok(q.skip(1)));
        lemma_health_sum_nonneg(q.skip(1));
        assert(health_sum(q2) == q2[0].health + health_sum(q2.skip(1)));
        assert(health_sum(q) == q[0].health + health_sum(q.skip(1)));
    } else {
        assert(queue_ok(q.skip(1)));
        lemma_damage_conservation(q.skip(1), d - q[0].health);
        lemma_health_sum_nonneg(q.skip(1));
    }
}

/// Damage lands strictly front-to-back: the survivors are exactly a suffix
/// of the queue; everyone behind the first survivor is untouched, and the
/// first survivor keeps every field but its (possibly reduced, still
/// positive) health. No enemy takes damage while one ahead of it survives.
pub proof fn lemma_damage_front_to_back(q: Seq<Enemy>, d: int)
    requires
        d >= 0,
        queue_ok(q),
    ensures
        ({
            let k = spec_kills(q, d);
            let out = spec_damaged(q, d);
            &&& 0 <= k <= q.len()
            &&& out.len() == q.len() - k
            &&& (forall|i: int| 1 <= i < out.len() ==> out[i] == q[k + i])
            &&& (out.len() > 0 ==> {
                &&& out[0].position == q[k].position
                &&& out[0].checkpoint_index == q[k].checkpoint_index
                &&& out[0].hardness == q[k].hardness
                &&& 0 < out[0].health <= q[k].health
            })
        }),
    decreases q.len(),
{
    lemma_kills_bounds(q, d);
    if q.len() == 0 {
    } else if d == 0 {
    } else if d < q[0].health {
        let q2 = q.update(0, Enemy { health: (q[0].health - d) as i32, ..q[0] });
        assert(spec_damaged(q, d) == q2);
        assert(forall|i: int| 1 <= i < q2.len() ==> q2[i] == q[i]);
    } else {
        assert(queue_ok(q.skip(1)));
        lemma_damage_front_to_back(q.skip(1), d - q[0].health);
        let k2 = spec_kills(q.skip(1), d - q[0].health);
        assert(forall|i: int| 0 <= i < q.skip(1).len() ==> q.skip(1)[i] == q[i + 1]);
        assert(spec_kills(q, d) == 1 + k2);
        assert(spec_damaged(q, d) == spec_damaged(q.skip(1), d - q[0].health));
    }
}

/// Advance every enemy of the queue by one simulation step.
pub fn advance_queue(enemies: &mut Vec<Enemy>)
    requires
        queue_ok(old(enemies)@),
    ensures
        final(enemies)@ == spec_advance(old(enemies)@),
        queue_ok(final(enemies)@),
{
    let n = enemies.len();
    let mut i: usize = 0;
    while i < n
        invariant
            i <= n,
            n == enemies@.len(),
            n == old(enemies)@.len(),
            queue_ok(old(enemies)@),
            forall|j: int| 0 <= j < i ==> enemies@[j] == (#[trigger] old(enemies)@[j]).spec_step(),
            forall|j: int| i <= j < n ==> enemies@[j] == old(enemies)@[j],
            queue_ok(enemies@),
        decreases n - i,
    {
        let mut e = enemies[i];
        e.update();
        enemies[i] = e;
        i = i + 1;
    }
    proof {
        assert(enemies@ =~= spec_advance(old(enemies)@));
    }
}

/// The damage sum of well-formed towers is never negative.
pub proof fn lemma_sum_damage_nonneg(ts: Seq<Tower>)
    requires
        towers_ok(ts),
    ensures
        sum_damage(ts) >= 0,
    decreases ts.len(),
{
    if ts.len() > 0 {
        assert(towers_ok(ts.skip(1)));
        lemma_sum_damage_nonneg(ts.skip(1));
    }
}

/// The damage all towers deal together this tick, clamped to the machine
/// range.
pub fn total_damage_of(towers: &Vec<Tower>) -> (d: i32)
    requires
        towers_ok(towers@),
    ensures
        d as int == sat32(sum_damage(towers@)),
        d >= 0,
{
    let n = towers.len();
    let mut acc: i32 = 0;
    let mut i: usize = 0;
    proof {
        assert(towers@.skip(0) =~= towers@);
    }
    while i < n
        invariant
            i <= n,
            n == towers@.len(),
            towers_ok(towers@),
            acc >= 0,
            sat32(acc + sum_damage(towers@.skip(i as int))) == sat32(sum_damage(towers@)),
        decreases n - i,
    {
        let t = towers[i];
        let d_i = t.get_damage();
        proof {
            assert(towers@.skip(i as int)[0] == towers@[i as int]);
            assert(towers@.skip(i as int).skip(1) =~= towers@.skip(i as int + 1));
            assert(towers_ok(towers@.skip(i as int + 1)));
            lemma_sum_damage_nonneg(towers@.skip(i as int + 1));
        }
        acc = sat_add_i32(acc, d_i);
        i = i + 1;
    }
    proof {
        assert(towers@.skip(n as int) =~= Seq::<Tower>::empty());
    }
    acc
}

/// Applies `total_damage` front-to-back across the queue: the front enemy
/// absorbs damage up to its remaining health; if that kills it, it is popped
/// and the leftover damage carries on to the new front. Returns the killed
/// enemies, in order, as they stood before the damage landed.
pub fn apply_damage(enemies: &mut Vec<Enemy>, total_damage: i32) -> (killed: Vec<Enemy>)
    requires
        queue_ok(old(enemies)@),
        total_damage >= 0,
    ensures
        final(enemies)@ == spec_damaged(old(enemies)@, total_damage as int),
        killed@ == old(enemies)@.take(spec_kills(old(enemies)@, total_damage as int)),
        queue_ok(final(enemies)@),
        queue_ok(killed@),
{
    let mut killed: Vec<Enemy> = Vec::new();
    let mut d = total_damage;
    proof {
        assert(killed@ + enemies@.take(spec_kills(enemies@, d as int)) =~= enemies@.take(
            spec_kills(enemies@, d as int),
        ));
    }
    while d > 0 && enemies.len() > 0
        invariant
            d >= 0,
            queue_ok(enemies@),
            queue_ok(killed@),
            spec_damaged(old(enemies)@, total_damage as int) == spec_damaged(enemies@, d as int),
            old(enemies)@.take(spec_kills(old(enemies)@, total_damage as int)) == killed@
                + enemies@.take(spec_kills(enemies@, d as int)),
        decreases d,
    {
        let ghost q_pre = enemies@;
        let ghost killed_pre = killed@;
        let ghost d_pre = d as int;
        let front = enemies[0];
        let front_health = front.health;
        if d >= front_health {
            let e = enemies.remove(0);
            killed.push(e);
            d = d - front_health;
            proof {
                let k_new = spec_kills(enemies@, d as int);
                lemma_kills_bounds(enemies@, d as int);
                assert(enemies@ =~= q_pre.skip(1));
                assert(spec_kills(q_pre, d_pre) == 1 + k_new);
                assert(spec_damaged(q_pre, d_pre) == spec_damaged(enemies@, d as int));
                assert(killed_pre + q_pre.take(1 + k_new) =~= killed@ + enemies@.take(k_new));
            }
        } else {
            let mut e = front;
            e.reduce_health(d);
            enemies[0] = e;
            proof {
                assert(spec_damaged(q_pre, d_pre) == enemies@);
                assert(spec_kills(q_pre, d_pre) == 0);
            }
            d = 0;
            proof {
                assert(spec_damaged(enemies@, 0) == enemies@);
                assert(spec_kills(enemies@, 0) == 0);
                assert(killed_pre + q_pre.take(0) =~= killed@ + enemies@.take(0));
            }
        }
    }
    proof {
        assert(spec_damaged(enemies@, d as int) == enemies@);
        assert(spec_kills(enemies@, d as int) == 0);
        assert(killed@ + enemies@.take(0) =~= killed@);
    }
    killed
}

/// Credits one kill's reward `r`: the score grows by exactly `3 * r` and the
/// honey by exactly `r`, each clamped to the machine range. A breaching enemy
/// is never credited: no call is made for it.
pub fn add_reward(score: &mut i32, honey: &mut i32, r: i32)
    requires
        r >= 0,
    ensures
        *final(score) as int == sat32(*old(score) + 3 * r),
        *final(honey) as int == sat32(*old(honey) + r),
        *final(score) >= *old(score),
        *final(honey) >= *old(honey),
{
    let s: i64 = *score as i64 + 3 * (r as i64);
    *score = if s > i32::MAX as i64 {
        i32::MAX
    } else {
        s as i32
    };
    *honey = sat_add_i32(*honey, r);
}

/// Draws a reward for every killed enemy and credits each in order. Returns
/// the rewards that were drawn, for the caller's accounting.
pub fn credit_kills(score: &mut i32, honey: &mut i32, killed: &Vec<Enemy>) -> (rewards: Ghost<
    Seq<int>,
>)
    requires
        queue_ok(killed@),
    ensures
        rewards@.len() == killed@.len(),
        forall|i: int| 0 <= i < killed@.len() ==> reward_ok(killed@[i], #[trigger] rewards@[i]),
        *final(score) as int == score_after(*old(score) as int, rewards@),
        *final(honey) as int == honey_after(*old(honey) as int, rewards@),
        *final(score) >= *old(score),
        *final(honey) >= *old(honey),
{
    let ghost s0 = *score as int;
    let ghost h0 = *honey as int;
    let ghost mut rs: Seq<int> = Seq::empty();
    let mut i: usize = 0;
    while i < killed.len()
        invariant
            i <= killed@.len(),
            queue_ok(killed@),
            rs.len() == i,
            forall|j: int| 0 <= j < i ==> reward_ok(killed@[j], #[trigger] rs[j]),
            *score as int == score_after(s0, rs),
            *honey as int == honey_after(h0, rs),
            *score >= s0,
            *honey >= h0,
        decreases killed@.len() - i,
    {
        let k = killed[i];
        let r = k.get_honey_reward();
        proof {
            lemma_credit_push(s0, h0, rs, r as int);
        }
        add_reward(score, honey, r);
        proof {
            rs = rs.push(r as int);
        }
        i = i + 1;
    }
    Ghost(rs)
}

/// The lower end of the spawn-health multiplier range: `max(1, h - 2)`.
pub open spec fn mult_lo(h: int) -> int {
    if h - 2 >= 1 {
        h - 2
    } else {
        1
    }
}

/// A spawn health composed of its noise parts.
pub open spec fn spawn_health_parts(m: int, p: int, a: int) -> int {
    m * p + a
}

/// `health` lies in the documented noise range for difficulty `h`:
/// `multiplier * percent + additive` with `multiplier` in `[max(1, h-2), h]`,
/// `percent` in `[90, 110)` and `additive` in `[0, 10)`.
pub open spec fn spawn_health_ok(h: int, health: int) -> bool {
    exists|m: int, p: int, a: int|
        mult_lo(h) <= m <= h && 90 <= p < 110 && 0 <= a < 10 && health == #[trigger] spawn_health_parts(
            m,
            p,
            a,
        )
}

/// `e` is an enemy freshly spawned at difficulty `h`: at the start of the
/// path, carrying `h`, with health in the documented noise range.
pub open spec fn spawned_ok(h: int, e: Enemy) -> bool {
    &&& e.checkpoint_index == 0
    &&& e.position == spec_start_position()
    &&& e.hardness == h
    &&& spawn_health_ok(h, e.health as int)
    &&& e.health >= 90
}

/// Appends one enemy spawned at difficulty `hardness` to the back of the
/// queue.
pub fn spawn_enemy(enemies: &mut Vec<Enemy>, hardness: i32)
    requires
        1 <= hardness <= HARDNESS_CAP,
    ensures
        final(enemies)@.len() == old(enemies)@.len() + 1,
        final(enemies)@ == old(enemies)@.push(final(enemies)@.last()),
        spawned_ok(hardness as int, final(enemies)@.last()),
        queue_ok(old(enemies)@) ==> queue_ok(final(enemies)@),
{
    let lo = if hardness - 2 >= 1 {
        hardness - 2
    } else {
        1
    };
    let m = rand_i32_range(lo, hardness + 1);
    let p = rand_i32_range(90, 110);
    let a = rand_i32_range(0, 10);
    proof {
        assert(m * p <= HARDNESS_CAP * 109) by (nonlinear_arith)
            requires
                0 <= m <= HARDNESS_CAP,
                0 <= p <= 109,
        ;
        assert(m * p >= 90) by (nonlinear_arith)
            requires
                m >= 1,
                p >= 90,
        ;
    }
    let health = m * p + a;
    let e = Enemy::new(hardness, health);
    enemies.push(e);
    proof {
        assert(spawn_health_parts(m as int, p as int, a as int) == health as int);
        assert(enemies@.last() == e);
    }
}

} // verus!

use tower_defense::config::{STARTING_HONEY, STARTING_LIVES};
use tower_defense::enemy::Enemy;
use tower_defense::game::{add_reward, apply_damage, credit_kills, spawn_enemy, total_damage_of};
use tower_defense::movement::GridPosition;
use tower_defense::scoreboard::ScoreBoard;
use tower_defense::state::GameState;
use tower_defense::tower::Tower;

fn tower_at_level(x: i16, y: i16, level: i32) -> Tower {
    let mut t = Tower::new(GridPosition::new(x, y));
    for _ in 0..level {
        t.upgrade();
    }
    t
}

#[test]
fn two_towers_sum_their_damage() {
    let towers = vec![tower_at_level(10, 10, 2), tower_at_level(20, 20, 3)];
    assert_eq!(total_damage_of(&towers), 10);
}

#[test]
fn damage_splashes_front_to_back() {
    // Two towers at levels 2 and 3 give 10 damage; the front enemy dies on 5
    // of it, the leftover 5 reaches the second.
    let mut queue = vec![Enemy::new(1, 5), Enemy::new(1, 20)];
    let killed = apply_damage(&mut queue, 10);
    assert_eq!(killed.len(), 1);
    assert_eq!(killed[0].get_health(), 5);
    assert_eq!(queue.len(), 1);
    assert_eq!(queue[0].get_health(), 15);
}

#[test]
fn damage_is_conserved_across_the_queue() {
    // 24 damage on [5, 20]: the front dies, 19 reach the second.
    let mut queue = vec![Enemy::new(1, 5), Enemy::new(1, 20)];
    let killed = apply_damage(&mut queue, 24);
    assert_eq!(killed.len(), 1);
    assert_eq!(queue.len(), 1);
    assert_eq!(queue[0].get_health(), 1);

    // Exactly the total health kills everyone and nothing is left over.
    let mut queue = vec![Enemy::new(1, 5), Enemy::new(1, 20)];
    let killed = apply_damage(&mut queue, 25);
    assert_eq!(killed.len(), 2);
    assert!(queue.is_empty());

    // More than the total health also kills everyone.
    let mut queue = vec![Enemy::new(1, 5), Enemy::new(1, 20)];
    let killed = apply_damage(&mut queue, 30);
    assert_eq!(killed.len(), 2);
    assert!(queue.is_empty());
}

#[test]
fn no_enemy_behind_a_survivor_is_touched() {
    let mut queue = vec![Enemy::new(1, 8), Enemy::new(1, 9), Enemy::new(1, 7)];
    let killed = apply_damage(&mut queue, 8);
    assert_eq!(killed.len(), 1);
    assert_eq!(queue[0].get_health(), 9);
    assert_eq!(queue[1].get_health(), 7);
}

#[test]
fn crediting_pays_three_to_one() {
    let mut score = 5;
    let mut honey = 7;
    add_reward(&mut score, &mut honey, 10);
    assert_eq!(score, 35);
    assert_eq!(honey, 17);
}

#[test]
fn kill_rewards_scale_with_hardness() {
    let killed = vec![Enemy::new(2, 10)];
    let mut score = 0;
    let mut honey = 0;
    credit_kills(&mut score, &mut honey, &killed);
    assert!(honey >= 2 * 70 && honey < 2 * 130);
    assert_eq!(score, 3 * honey);
}

#[test]
fn one_tick_kills_credits_and_keeps_the_queue_order() {
    // Difficulty 1, towers at levels 2 and 3, queue [5, 20]: after one tick
    // the first enemy is dead and credited, the second took the leftover 5.
    let mut gs = GameState::new();
    gs.tick_counter = 1;  // off the spawn schedule, to look at damage alone
    gs.towers.push(tower_at_level(30, 30, 2));
    gs.towers.push(tower_at_level(40, 40, 3));
    let mut a = Enemy::new(1, 5);
    a.position = GridPosition::new(20, 4);
    let mut b = Enemy::new(1, 20);
    b.position = GridPosition::new(10, 4);
    gs.enemies.push(a);
    gs.enemies.push(b);
    gs.simulate_tick();
    assert_eq!(gs.enemies.len(), 1);
    // Both enemies first advanced one cell toward (55, 4), then the damage
    // landed: 5 killed the front, 20 - 5 = 15 is left on the survivor.
    assert_eq!(gs.enemies[0].get_health(), 15);
    assert_eq!(gs.enemies[0].position, GridPosition::new(11, 4));
    // The kill was credited at difficulty 1: noise in [70, 130).
    let gained = gs.honey - STARTING_HONEY;
    assert!(gained >= 70 && gained < 130);
    assert_eq!(gs.score, 3 * gained);
    assert_eq!(gs.lives, STARTING_LIVES);
    assert!(!gs.gameover);
}

#[test]
fn a_breach_costs_a_life_and_pays_nothing() {
    let mut gs = GameState::new();
    gs.lives = 1;
    gs.tick_counter = 1;  // off the spawn schedule
    let mut e = Enemy::new(1, 50);
    e.position = GridPosition::new(14, 18);
    e.checkpoint_index = 6;
    gs.enemies.push(e);
    gs.simulate_tick();
    assert_eq!(gs.lives, 0);
    assert!(gs.gameover);
    assert!(gs.enemies.is_empty());
    assert_eq!(gs.score, 0);
    assert_eq!(gs.honey, STARTING_HONEY);
    assert_eq!(gs.tick_counter, 2);
}

#[test]
fn after_the_loss_only_the_tick_counter_moves() {
    let mut gs = GameState::new();
    gs.lives = 1;
    gs.tick_counter = 1;
    let mut e = Enemy::new(1, 50);
    e.position = GridPosition::new(14, 18);
    e.checkpoint_index = 6;
    gs.enemies.push(e);
    gs.simulate_tick();
    assert!(gs.gameover);
    let (score, honey, lives) = (gs.score, gs.honey, gs.lives);
    let (n_enemies, n_towers) = (gs.enemies.len(), gs.towers.len());
    for _ in 0..20 {
        gs.simulate_tick();
    }
    assert!(gs.gameover);
    assert_eq!(gs.score, score);
    assert_eq!(gs.honey, honey);
    assert_eq!(gs.lives, lives);
    assert_eq!(gs.enemies.len(), n_enemies);
    assert_eq!(gs.towers.len(), n_towers);
    assert_eq!(gs.tick_counter, 22);
}

#[test]
fn one_enemy_spawns_every_seven_ticks() {
    let mut gs = GameState::new();
    for tick in 0..15 {
        assert_eq!(gs.enemies.len(), (tick + 6) / 7);
        gs.simulate_tick();
    }
    // Spawns happened on ticks 0, 7 and 14.
    assert_eq!(gs.enemies.len(), 3);
    for e in gs.enemies.iter() {
        assert_eq!(e.hardness, 1);
        // Health range at difficulty 1: multiplier 1, percent in [90, 110),
        // additive in [0, 10).
        assert!(e.get_health() >= 90);
        assert!(e.get_health() <= 118);
    }
}

#[test]
fn spawned_enemies_enter_at_the_path_start() {
    for _ in 0..20 {
        let mut q = Vec::new();
        spawn_enemy(&mut q, 5);
        assert_eq!(q.len(), 1);
        let e = &q[0];
        assert_eq!(e.checkpoint_index, 0);
        assert_eq!(e.position, GridPosition::new(0, 4));
        assert_eq!(e.hardness, 5);
        // At difficulty 5: multiplier in [3, 5], percent in [90, 110),
        // additive in [0, 10).
        assert!(e.get_health() >= 3 * 90);
        assert!(e.get_health() <= 5 * 109 + 9);
    }
}

#[test]
fn hardness_grows_by_one_every_seventy_ticks() {
    let mut gs = GameState::new();
    for _ in 0..70 {
        assert_eq!(gs.hardness, 1);
        gs.simulate_tick();
    }
    // The tick whose counter is 70 escalates.
    gs.simulate_tick();
    assert_eq!(gs.hardness, 2);
    for _ in 71..140 {
        gs.simulate_tick();
    }
    assert_eq!(gs.hardness, 2);
    gs.simulate_tick();
    assert_eq!(gs.hardness, 3);
}

#[test]
fn upgrades_deduct_honey_and_ignore_the_unaffordable() {
    let mut gs = GameState::new();
    gs.add_tower(GridPosition::new(10, 10));
    assert_eq!(gs.honey, 100);
    gs.try_upgrade(0);
    assert_eq!(gs.towers[0].level, 1);
    assert_eq!(gs.honey, 0);
    // The next upgrade costs 200: silently rejected.
    gs.try_upgrade(0);
    assert_eq!(gs.towers[0].level, 1);
    assert_eq!(gs.honey, 0);
}

#[test]
fn clicks_route_to_the_tower_beneath_them() {
    let mut gs = GameState::new();
    gs.add_tower(GridPosition::new(10, 10));
    gs.add_tower(GridPosition::new(20, 20));
    assert_eq!(gs.upgrade_tower_at(GridPosition::new(30, 30)), None);
    assert_eq!(gs.upgrade_tower_at(GridPosition::new(21, 19)), Some(1));
    assert_eq!(gs.towers[1].level, 1);
    assert_eq!(gs.honey, 0);
    // Affordability is checked: this click lands but changes nothing.
    assert_eq!(gs.upgrade_tower_at(GridPosition::new(10, 10)), Some(0));
    assert_eq!(gs.towers[0].level, 0);
}

#[test]
fn scoreboard_mirrors_the_economy() {
    let mut gs = GameState::new();
    gs.score = 42;
    gs.lives = 2;
    gs.honey = 7;
    let sb = ScoreBoard::of_state(&gs);
    assert_eq!(sb.score, 42);
    assert_eq!(sb.lives, 2);
    assert_eq!(sb.honey, 7);
}

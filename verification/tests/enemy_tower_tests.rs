use tower_defense::enemy::{Enemy, PATH_LEN};
use tower_defense::movement::{Direction, GridPosition};
use tower_defense::nexus::Nexus;
use tower_defense::tower::Tower;

#[test]
fn new_enemy_starts_at_the_path_entrance() {
    let e = Enemy::new(3, 120);
    assert_eq!(e.checkpoint_index, 0);
    assert_eq!(e.position, GridPosition::new(0, 4));
    assert_eq!(e.get_health(), 120);
    assert_eq!(e.hardness, 3);
}

#[test]
fn enemy_prefers_the_horizontal_correction() {
    // First checkpoint is (55, 4); from (0, 4) the x gap decides.
    let e = Enemy::new(1, 10);
    assert_eq!(e.get_direction(), Some(Direction::Right));
}

#[test]
fn enemy_walks_one_cell_per_tick() {
    let mut e = Enemy::new(1, 10);
    e.update();
    assert_eq!(e.position, GridPosition::new(1, 4));
    assert_eq!(e.checkpoint_index, 0);
}

#[test]
fn reaching_a_checkpoint_consumes_the_tick() {
    let mut e = Enemy::new(1, 10);
    e.position = GridPosition::new(55, 4);
    assert_eq!(e.get_direction(), None);
    e.update();
    assert_eq!(e.checkpoint_index, 1);
    assert_eq!(e.position, GridPosition::new(55, 4));
}

#[test]
fn vertical_correction_comes_after_horizontal() {
    // Toward checkpoint 1 at (55, 27): x matches, y is short.
    let mut e = Enemy::new(1, 10);
    e.position = GridPosition::new(55, 4);
    e.checkpoint_index = 1;
    assert_eq!(e.get_direction(), Some(Direction::Down));
}

#[test]
fn an_enemy_past_the_path_end_stays_put() {
    let mut e = Enemy::new(1, 10);
    e.position = GridPosition::new(14, 18);
    e.checkpoint_index = PATH_LEN;
    e.update();
    assert_eq!(e.checkpoint_index, PATH_LEN);
    assert_eq!(e.position, GridPosition::new(14, 18));
}

#[test]
fn health_goes_down_by_what_was_dealt() {
    let mut e = Enemy::new(1, 10);
    e.reduce_health(4);
    assert_eq!(e.get_health(), 6);
    assert!(e.is_alive());
    e.reduce_health(6);
    assert_eq!(e.get_health(), 0);
    assert!(!e.is_alive());
}

#[test]
fn reward_is_hardness_scaled_noise() {
    for _ in 0..30 {
        let e = Enemy::new(2, 10);
        let r = e.get_honey_reward();
        assert!(r >= 2 * 70);
        assert!(r < 2 * 130);
        assert_eq!(r % 2, 0);
    }
}

#[test]
fn upgrade_cost_grows_quadratically() {
    let mut t = Tower::new(GridPosition::new(10, 10));
    assert_eq!(t.honey_to_upgrade(), 100);
    t.upgrade();
    assert_eq!(t.honey_to_upgrade(), 200);
    t.upgrade();
    assert_eq!(t.honey_to_upgrade(), 500);
    t.upgrade();
    assert_eq!(t.honey_to_upgrade(), 1000);
}

#[test]
fn damage_is_twice_the_level() {
    let mut t = Tower::new(GridPosition::new(10, 10));
    assert_eq!(t.get_damage(), 0);
    t.upgrade();
    assert_eq!(t.get_damage(), 2);
    t.upgrade();
    t.upgrade();
    assert_eq!(t.get_damage(), 6);
}

#[test]
fn clicks_land_within_one_cell_inclusive() {
    let t = Tower::new(GridPosition::new(10, 10));
    assert!(t.is_clicking_on(GridPosition::new(10, 10)));
    assert!(t.is_clicking_on(GridPosition::new(9, 9)));
    assert!(t.is_clicking_on(GridPosition::new(11, 11)));
    assert!(t.is_clicking_on(GridPosition::new(9, 11)));
    assert!(!t.is_clicking_on(GridPosition::new(12, 10)));
    assert!(!t.is_clicking_on(GridPosition::new(10, 8)));
}

#[test]
fn nexus_contains_its_region_inclusive() {
    let n = Nexus::new(13, 17, 15, 19);
    assert!(n.is_enemy_in(GridPosition::new(14, 18)));
    assert!(n.is_enemy_in(GridPosition::new(13, 17)));
    assert!(n.is_enemy_in(GridPosition::new(15, 19)));
    assert!(!n.is_enemy_in(GridPosition::new(16, 18)));
    assert!(!n.is_enemy_in(GridPosition::new(14, 20)));
}

use tower_defense::movement::{Direction, GridPosition};
use tower_defense::player::Player;
use tower_defense::creature::Creature;

#[test]
fn move_wraps_at_top_edge() {
    let p = GridPosition::new(0, 0);
    let r = GridPosition::new_from_move(p, Direction::Up);
    assert_eq!((r.x, r.y), (0, 63));
}

#[test]
fn move_wraps_at_left_edge() {
    let p = GridPosition::new(0, 0);
    let r = GridPosition::new_from_move(p, Direction::Left);
    assert_eq!((r.x, r.y), (63, 0));
}

#[test]
fn move_wraps_at_bottom_edge() {
    let p = GridPosition::new(63, 63);
    let r = GridPosition::new_from_move(p, Direction::Down);
    assert_eq!((r.x, r.y), (63, 0));
}

#[test]
fn move_wraps_at_right_edge() {
    let p = GridPosition::new(63, 63);
    let r = GridPosition::new_from_move(p, Direction::Right);
    assert_eq!((r.x, r.y), (0, 63));
}

#[test]
fn move_in_the_interior_is_plain() {
    let p = GridPosition::new(10, 20);
    assert_eq!(GridPosition::new_from_move(p, Direction::Up), GridPosition::new(10, 19));
    assert_eq!(GridPosition::new_from_move(p, Direction::Down), GridPosition::new(10, 21));
    assert_eq!(GridPosition::new_from_move(p, Direction::Left), GridPosition::new(9, 20));
    assert_eq!(GridPosition::new_from_move(p, Direction::Right), GridPosition::new(11, 20));
}

#[test]
fn every_move_stays_on_the_grid() {
    let dirs = [Direction::Up, Direction::Down, Direction::Left, Direction::Right];
    let edges = [(0, 0), (63, 0), (0, 63), (63, 63), (31, 0), (0, 31)];
    for &(x, y) in edges.iter() {
        for &d in dirs.iter() {
            let r = GridPosition::new_from_move(GridPosition::new(x, y), d);
            assert!(0 <= r.x && r.x < 64);
            assert!(0 <= r.y && r.y < 64);
        }
    }
}

#[test]
fn inverse_maps_each_direction_to_its_opposite() {
    assert_eq!(Direction::Up.inverse(), Direction::Down);
    assert_eq!(Direction::Down.inverse(), Direction::Up);
    assert_eq!(Direction::Left.inverse(), Direction::Right);
    assert_eq!(Direction::Right.inverse(), Direction::Left);
}

#[test]
fn inverse_twice_is_identity() {
    for d in [Direction::Up, Direction::Down, Direction::Left, Direction::Right] {
        assert_eq!(d.inverse().inverse(), d);
    }
}

#[test]
fn random_positions_stay_in_the_given_bounds() {
    for _ in 0..50 {
        let p = GridPosition::random(10, 5);
        assert!(0 <= p.x && p.x < 10);
        assert!(0 <= p.y && p.y < 5);
    }
}

#[test]
fn random_direction_is_one_of_the_four() {
    for _ in 0..20 {
        let d = Direction::rand();
        assert!(matches!(
            d,
            Direction::Up | Direction::Down | Direction::Left | Direction::Right
        ));
    }
}

#[test]
fn player_walks_where_it_was_steered() {
    let mut p = Player::new(GridPosition::new(5, 5));
    assert_eq!(p.dir, Direction::Right);
    p.set_dir(Direction::Up);
    p.update();
    assert_eq!(p.pos, GridPosition::new(5, 4));
    assert_eq!(p.last_update_dir, Direction::Up);
}

#[test]
fn creature_walks_to_a_neighbour_cell() {
    let mut c = Creature::new(GridPosition::new(30, 30));
    c.update();
    let moved = [
        GridPosition::new(30, 29),
        GridPosition::new(30, 31),
        GridPosition::new(29, 30),
        GridPosition::new(31, 30),
    ];
    assert!(moved.contains(&c.pos));
}

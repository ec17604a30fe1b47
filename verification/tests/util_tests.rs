use hecs_arkanoid::components::Vec2;
use hecs_arkanoid::systems::playing::util::{
    get_padded_position_outside_play_area, get_random_pos_in_play_area, is_in_play_area,
};
use rand::rngs::StdRng;
use rand::SeedableRng;

const WIDTH: i32 = 240 * 1024;
const HEIGHT: i32 = 160 * 1024;

#[test]
fn the_play_area_includes_its_edges() {
    assert!(is_in_play_area(Vec2::new(0, 0)));
    assert!(is_in_play_area(Vec2::new(WIDTH, HEIGHT)));
    assert!(is_in_play_area(Vec2::new(1, HEIGHT - 1)));
    assert!(!is_in_play_area(Vec2::new(-1, 0)));
    assert!(!is_in_play_area(Vec2::new(0, -1)));
    assert!(!is_in_play_area(Vec2::new(WIDTH + 1, 0)));
    assert!(!is_in_play_area(Vec2::new(0, HEIGHT + 1)));
}

#[test]
fn random_places_lie_in_the_play_area() {
    let mut rng = StdRng::seed_from_u64(7);
    for _ in 0..500 {
        let pos = get_random_pos_in_play_area(&mut rng);
        assert!(is_in_play_area(pos));
        assert!(pos.x < WIDTH && pos.y < HEIGHT);
    }
}

#[test]
fn padded_places_lie_around_the_play_area() {
    let mut rng = StdRng::seed_from_u64(11);
    let padding = 8 * 1024;
    let mut zones = std::collections::HashSet::new();
    for _ in 0..2000 {
        let pos = get_padded_position_outside_play_area(&mut rng, padding);
        assert!(!is_in_play_area(pos));
        let column = if pos.x < 0 {
            assert!(-2 * padding <= pos.x && pos.x < -padding);
            0
        } else if pos.x >= WIDTH {
            assert!(WIDTH + padding <= pos.x && pos.x < WIDTH + 2 * padding);
            2
        } else {
            1
        };
        let row = if pos.y < 0 {
            assert!(-2 * padding <= pos.y && pos.y < -padding);
            0
        } else if pos.y >= HEIGHT {
            assert!(HEIGHT + padding <= pos.y && pos.y < HEIGHT + 2 * padding);
            2
        } else {
            1
        };
        assert!((column, row) != (1, 1));
        zones.insert((column, row));
    }
    assert_eq!(zones.len(), 8);
}

#[test]
fn the_smallest_and_the_largest_padding() {
    let mut rng = StdRng::seed_from_u64(3);
    for _ in 0..100 {
        let pos = get_padded_position_outside_play_area(&mut rng, 1);
        assert!(!is_in_play_area(pos));
        let pos = get_padded_position_outside_play_area(&mut rng, 0x2000_0000);
        assert!(!is_in_play_area(pos));
    }
}

use hecs::World;
use hecs_arkanoid::components::{clamp_to_i32, to_pixels, Color, Paddle, Vec2, UNITS_PER_PIXEL};
use hecs_arkanoid::entity_archetypes::{
    spawn_paddle, BALL_SIZE, FIELD_HEIGHT, FIELD_WIDTH, WALL_OVERLAP, WALL_THICKNESS,
};
use hecs_arkanoid::level_data::{
    LevelTable, BLOCK_HEIGHT, BLOCK_WIDTH, COLUMN_PITCH, FIRST_BLOCK_X, FIRST_BLOCK_Y, ROW_PITCH,
};
use hecs_arkanoid::physics_engine::{BodyHandle, BodyLinks};
use hecs_arkanoid::state::State;
use hecs_arkanoid::step::find_paddle;

#[test]
fn lengths_are_measured_in_units_of_a_pixel() {
    assert_eq!(UNITS_PER_PIXEL, 1024);
    assert_eq!(FIELD_WIDTH, 240 * 1024);
    assert_eq!(FIELD_HEIGHT, 160 * 1024);
    assert_eq!(WALL_THICKNESS, 20 * 1024);
    assert_eq!(WALL_OVERLAP, 1024);
    assert_eq!(BALL_SIZE, 4 * 1024);
    assert_eq!(BLOCK_WIDTH, 20 * 1024);
    assert_eq!(BLOCK_HEIGHT, 8 * 1024);
    assert_eq!(FIRST_BLOCK_X, 5 * 1024);
    assert_eq!(FIRST_BLOCK_Y, 3 * 1024);
    assert_eq!(COLUMN_PITCH, 21 * 1024);
    assert_eq!(ROW_PITCH, 9 * 1024);
}

#[test]
fn whole_pixels_round_towards_zero() {
    assert_eq!(to_pixels(0), 0);
    assert_eq!(to_pixels(1023), 0);
    assert_eq!(to_pixels(1024), 1);
    assert_eq!(to_pixels(-1023), 0);
    assert_eq!(to_pixels(-1024), -1);
    assert_eq!(to_pixels(-1025), -1);
    assert_eq!(to_pixels(i32::MAX), 2_097_151);
    assert_eq!(to_pixels(i32::MIN), -2_097_152);
}

#[test]
fn clamping_keeps_what_fits() {
    assert_eq!(clamp_to_i32(0), 0);
    assert_eq!(clamp_to_i32(-5), -5);
    assert_eq!(clamp_to_i32(i32::MAX as i64), i32::MAX);
    assert_eq!(clamp_to_i32(i32::MAX as i64 + 1), i32::MAX);
    assert_eq!(clamp_to_i32(i32::MIN as i64), i32::MIN);
    assert_eq!(clamp_to_i32(i32::MIN as i64 - 1), i32::MIN);
    assert_eq!(clamp_to_i32(i64::MAX), i32::MAX);
    assert_eq!(clamp_to_i32(i64::MIN), i32::MIN);
}

#[test]
fn halves_and_centres() {
    assert_eq!(Vec2::new(7, -7).halve(), Vec2::new(3, -3));
    assert_eq!(Vec2::new(10, 20).centre(Vec2::new(4, 8)), Vec2::new(12, 24));
    assert_eq!(Vec2::new(10, 20).centre(Vec2::new(5, -5)), Vec2::new(12, 18));
    assert_eq!(
        Vec2::new(i32::MAX, i32::MIN).centre(Vec2::new(i32::MAX, i32::MIN)),
        Vec2::new(i32::MAX, i32::MIN)
    );
}

#[test]
fn body_links_on_their_own() {
    let mut links = BodyLinks::new();
    links.share_no_body();
    let a = BodyHandle { index: 1, generation: 0 };
    let b = BodyHandle { index: 0, generation: 1 };
    links.set(10, a);
    links.set(11, b);
    assert_eq!(links.body_of(10), Some(a));
    assert_eq!(links.body_of(11), Some(b));
    assert_eq!(links.entity_of(a), Some(10));
    assert_eq!(links.entity_of(b), Some(11));
    links.set(11, a);
    assert_eq!(links.body_of(10), None);
    assert_eq!(links.entity_of(b), None);
    assert_eq!(links.entity_of(a), Some(11));
    links.remove(11);
    assert_eq!(links.entity_of(a), None);
    assert_eq!(links.body_of(11), None);
}

#[test]
fn the_last_paddle_of_the_world_is_found() {
    let mut world = World::new();
    let table = LevelTable::new(vec![[[0u8; 11]; 16]], [Color::white(); 10]).unwrap();
    let mut state = State::new(table);
    assert_eq!(find_paddle(&world), None);
    let first = spawn_paddle(&mut world, &mut state, Vec2::new(0, 0), Vec2::new(1, 1), Color::white());
    assert_eq!(find_paddle(&world), Some(first));
    let second = spawn_paddle(&mut world, &mut state, Vec2::new(5, 5), Vec2::new(1, 1), Color::white());
    assert_eq!(find_paddle(&world), Some(second));
    let other_kind = world.spawn((Paddle { size: 3 },)).to_bits().get();
    assert_eq!(find_paddle(&world), Some(other_kind));
    world.despawn(hecs::Entity::from_bits(other_kind).unwrap()).unwrap();
    world.despawn(hecs::Entity::from_bits(second).unwrap()).unwrap();
    assert_eq!(find_paddle(&world), Some(first));
}

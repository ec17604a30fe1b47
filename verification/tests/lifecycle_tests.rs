use hecs::World;
use hecs_arkanoid::audio_playing::AudioCommand;
use hecs_arkanoid::components::{
    Ball, Block, CTransform, Color, EntityId, Health, OwnedBy, Paddle, Physics, Shape, Vec2, Wall,
};
use hecs_arkanoid::entity_archetypes::{spawn_ball, spawn_block, spawn_paddle, spawn_strong_block};
use hecs_arkanoid::game_mode_transitions::{
    delete_all_blocks, game_over_init_state, level_complete_init_state, playing_init_state,
    prepare_level_init_state, spawn_level, title_init_state, transition_game_mode,
    win_game_init_state,
};
use hecs_arkanoid::input_processing::{process_input, RawInputs};
use hecs_arkanoid::level_data::LevelTable;
use hecs_arkanoid::physics_engine::{BodyHandle, BodyKind, ColliderId, ContactEvent};
use hecs_arkanoid::state::{
    GameMode, GameOverMode, LevelCompleteMode, PrepareLevelMode, State, WinGameMode,
};
use hecs_arkanoid::step::{
    find_paddle, game_over_step, level_complete_step, playing_step, playing_step_after_physics,
    prepare_level_step, step, title_step, win_game_step,
};
use hecs_arkanoid::systems::playing::physics::{schedule_deletion, BALL_SPEED_X, BALL_SPEED_Y};
use hecs_arkanoid::systems::playing::state_changing::{
    check_for_level_complete, check_for_level_lost, no_ball, no_ordinary_block,
};
use rapier2d::na::Vector2;
use rapier2d::prelude::{ActiveEvents, ColliderBuilder, RigidBodyBuilder, RigidBodyHandle};

const PIXEL: i32 = 1024;

fn px(x: i32, y: i32) -> Vec2 {
    Vec2::new(x * PIXEL, y * PIXEL)
}

fn meters(units: i32) -> f32 {
    units as f32 / 1024.0 / 120.0
}

fn two_by_two() -> [[u8; 11]; 16] {
    let mut grid = [[0u8; 11]; 16];
    grid[2][0] = 1;
    grid[2][1] = 2;
    grid[3][0] = 3;
    grid[3][1] = 4;
    grid
}

fn one_block() -> [[u8; 11]; 16] {
    let mut grid = [[0u8; 11]; 16];
    grid[15][10] = 9;
    grid
}

fn palette() -> [Color; 10] {
    let mut palette = [Color::white(); 10];
    for (i, color) in palette.iter_mut().enumerate() {
        *color = Color::new(i as u8, 10 * i as u8, 20 * i as u8, 255);
    }
    palette
}

fn new_state(grids: Vec<[[u8; 11]; 16]>) -> State {
    State::new(LevelTable::new(grids, palette()).expect("a valid level table"))
}

fn create_bodies(state: &mut State) {
    let requests = std::mem::take(&mut state.physics.body_requests);
    for request in requests {
        let d = request.descriptor;
        let mut collider = ColliderBuilder::cuboid(meters(d.half_extents.x), meters(d.half_extents.y))
            .restitution(d.restitution as f32 / 1000.0);
        if let Some(friction) = d.friction {
            collider = collider.friction(friction as f32 / 1000.0);
        }
        if let Some(mass) = d.mass {
            collider = collider.mass(mass as f32 / 1_000_000.0);
        }
        if d.collision_events {
            collider = collider.active_events(ActiveEvents::COLLISION_EVENTS);
        }
        let builder = match d.kind {
            BodyKind::Fixed => RigidBodyBuilder::fixed(),
            BodyKind::KinematicPositionBased => RigidBodyBuilder::kinematic_position_based(),
            BodyKind::Dynamic => RigidBodyBuilder::dynamic(),
        };
        let mut builder = builder
            .translation(Vector2::new(meters(d.translation.x), meters(d.translation.y)))
            .linvel(Vector2::new(meters(d.velocity.x), meters(d.velocity.y)))
            .can_sleep(d.can_sleep)
            .ccd_enabled(d.ccd_enabled);
        if d.free_flight {
            builder = builder.lock_rotations().linear_damping(0.0).angular_damping(0.0);
        }
        let handle = state.physics.rigid_body_set.insert(builder.build());
        state.physics.collider_set.insert_with_parent(
            collider.build(),
            handle,
            &mut state.physics.rigid_body_set,
        );
        let (index, generation) = handle.into_raw_parts();
        state.physics.set_rigid_body_mapping(request.entity, BodyHandle { index, generation });
    }
}

fn collider_of(state: &State, entity: EntityId) -> ColliderId {
    let body = state.physics.get_rigid_body_handle(entity).expect("the entity has a body");
    let handle = RigidBodyHandle::from_raw_parts(body.index, body.generation);
    let colliders = state.physics.rigid_body_set.get(handle).expect("the body exists").colliders();
    let (index, generation) = colliders[0].into_raw_parts();
    ColliderId { index, generation }
}

fn contact(state: &State, a: EntityId, b: EntityId) -> ContactEvent {
    ContactEvent { started: true, collider1: collider_of(state, a), collider2: collider_of(state, b) }
}

fn ids_with_block(world: &World) -> Vec<EntityId> {
    world.query::<&Block>().iter().map(|(e, _)| e.to_bits().get()).collect()
}

fn ids_with_ball(world: &World) -> Vec<EntityId> {
    world.query::<&Ball>().iter().map(|(e, _)| e.to_bits().get()).collect()
}

fn count_walls(world: &World) -> usize {
    world.query::<&Wall>().iter().count()
}

fn count_paddles(world: &World) -> usize {
    world.query::<&Paddle>().iter().count()
}

fn no_input() -> RawInputs {
    RawInputs {
        escape_pressed: false,
        space_pressed: false,
        space_down: false,
        left_down: false,
        right_down: false,
        mouse_pos: Vec2::new(0, 0),
    }
}

/// Runs the ticks of the preparation until live play is entered.
fn play_level(world: &mut World, state: &mut State) {
    state.next_game_mode = Some(GameMode::PrepareLevel);
    transition_game_mode(world, state);
    create_bodies(state);
    let mut ticks = 0;
    while state.next_game_mode.is_none() {
        step(world, state);
        create_bodies(state);
        ticks += 1;
        assert!(ticks <= 1000);
    }
    assert_eq!(state.next_game_mode, Some(GameMode::Playing));
    transition_game_mode(world, state);
    assert_eq!(state.game_mode, GameMode::Playing);
}

#[test]
fn a_new_state_shows_the_title() {
    let state = new_state(vec![two_by_two()]);
    assert!(state.running);
    assert_eq!(state.game_mode, GameMode::Title);
    assert_eq!(state.next_game_mode, None);
    assert_eq!(state.level, 1);
    assert_eq!(state.level_change_delay, 0);
    assert_eq!(state.prepare_level_state.mode, PrepareLevelMode::SpawnStuffIn);
    assert_eq!(state.level_complete_state.mode, LevelCompleteMode::Announce);
    assert_eq!(state.win_game_state.mode, WinGameMode::Announce);
    assert_eq!(state.game_over_state.mode, GameOverMode::Announce);
    assert!(state.audio_command_buffer.is_empty());
    assert!(state.render_command_buffer.is_empty());
    assert!(state.deletion_events.is_empty());
    assert!(state.physics.collision_events.is_empty());
    assert!(state.physics.body_requests.is_empty());
}

#[test]
fn transition_without_request_changes_nothing() {
    let mut world = World::new();
    let mut state = new_state(vec![two_by_two()]);
    world.spawn((Ball,));
    transition_game_mode(&mut world, &mut state);
    assert_eq!(state.game_mode, GameMode::Title);
    assert_eq!(state.next_game_mode, None);
    assert_eq!(world.len(), 1);
}

#[test]
fn transitions_happen_at_the_tick_boundary_only() {
    let mut world = World::new();
    let mut state = new_state(vec![two_by_two()]);
    let mut raw = no_input();
    raw.space_pressed = true;
    process_input(&raw, &mut state);
    assert_eq!(state.game_mode, GameMode::Title);
    assert_eq!(state.next_game_mode, Some(GameMode::PrepareLevel));
    step(&mut world, &mut state);
    assert_eq!(state.game_mode, GameMode::Title);
    transition_game_mode(&mut world, &mut state);
    assert_eq!(state.game_mode, GameMode::PrepareLevel);
    assert_eq!(state.next_game_mode, None);
}

#[test]
fn preparing_a_level_builds_walls_paddle_and_blocks() {
    let mut world = World::new();
    let mut state = new_state(vec![two_by_two()]);
    world.spawn((Ball,));
    let made = prepare_level_init_state(&mut world, &mut state);
    assert_eq!(state.prepare_level_state.mode, PrepareLevelMode::SpawnStuffIn);
    assert_eq!(state.prepare_level_state.countdown, 60);
    assert_eq!(world.len(), 9);
    assert_eq!(count_walls(&world), 4);
    assert_eq!(count_paddles(&world), 1);
    assert_eq!(made.blocks.len(), 4);
    assert!(ids_with_ball(&world).is_empty());
    assert_eq!(state.physics.body_requests.len(), 9);
    let requested: Vec<EntityId> = state.physics.body_requests.iter().map(|r| r.entity).collect();
    let mut expected: Vec<EntityId> = made.walls.to_vec();
    expected.push(made.paddle);
    expected.extend(made.blocks.iter().copied());
    assert_eq!(requested, expected);
    assert!(state.physics.body_requests.iter().all(|r| !r.descriptor.can_sleep));

    let paddle = hecs::Entity::from_bits(made.paddle).unwrap();
    assert_eq!(world.get::<&CTransform>(paddle).unwrap().pos, px(100, 144));
    assert_eq!(world.get::<&Shape>(paddle).unwrap().dims, px(20, 8));
    let paddle_request = state.physics.body_requests[4];
    assert_eq!(paddle_request.descriptor.kind, BodyKind::KinematicPositionBased);
    assert_eq!(paddle_request.descriptor.translation, px(110, 148));
    assert_eq!(paddle_request.descriptor.half_extents, px(10, 4));

    let first = hecs::Entity::from_bits(made.blocks[0]).unwrap();
    assert_eq!(world.get::<&CTransform>(first).unwrap().pos, px(5, 3));
    assert_eq!(world.get::<&Block>(first).unwrap().color, palette()[1]);
    assert_eq!(world.get::<&Health>(first).unwrap().hp, 1);
    let last = hecs::Entity::from_bits(made.blocks[3]).unwrap();
    assert_eq!(world.get::<&CTransform>(last).unwrap().pos, px(26, 12));
    assert_eq!(world.get::<&Block>(last).unwrap().color, palette()[4]);
}

#[test]
fn walls_surround_the_play_field() {
    let mut world = World::new();
    let mut state = new_state(vec![two_by_two()]);
    let made = prepare_level_init_state(&mut world, &mut state);
    let expected = [
        (px(0, -19), px(240, 20), px(120, -9)),
        (px(0, 159), px(240, 20), px(120, 169)),
        (px(-19, 0), px(20, 160), px(-9, 80)),
        (px(239, 0), px(20, 160), px(249, 80)),
    ];
    for (i, (pos, dims, centre)) in expected.iter().enumerate() {
        let wall = hecs::Entity::from_bits(made.walls[i]).unwrap();
        assert_eq!(world.get::<&CTransform>(wall).unwrap().pos, *pos);
        assert_eq!(world.get::<&Shape>(wall).unwrap().dims, *dims);
        let request = state.physics.body_requests[i];
        assert_eq!(request.entity, made.walls[i]);
        assert_eq!(request.descriptor.kind, BodyKind::Fixed);
        assert_eq!(request.descriptor.translation, *centre);
        assert_eq!(request.descriptor.half_extents, Vec2::new(dims.x / 2, dims.y / 2));
        assert_eq!(request.descriptor.restitution, 1000);
        assert_eq!(request.descriptor.friction, Some(0));
        assert!(!request.descriptor.can_sleep);
    }
    let eaters = world.query::<&hecs_arkanoid::components::BallEater>().iter().count();
    assert_eq!(eaters, 1);
}

#[test]
fn preparation_runs_through_its_sub_phases() {
    let mut world = World::new();
    let mut state = new_state(vec![two_by_two()]);
    state.next_game_mode = Some(GameMode::PrepareLevel);
    transition_game_mode(&mut world, &mut state);
    create_bodies(&mut state);

    for _ in 0..59 {
        let report = prepare_level_step(&mut state, &mut world);
        assert!(report.pointer.is_none() && report.spawned.is_empty());
    }
    assert_eq!(state.prepare_level_state.mode, PrepareLevelMode::SpawnStuffIn);
    assert_eq!(state.prepare_level_state.countdown, 1);
    assert!(state.audio_command_buffer.is_empty());
    prepare_level_step(&mut state, &mut world);
    assert_eq!(state.prepare_level_state.mode, PrepareLevelMode::AnnounceLevel);
    assert_eq!(state.prepare_level_state.countdown, 120);
    assert_eq!(state.audio_command_buffer, vec![AudioCommand::LevelStart]);

    for _ in 0..120 {
        prepare_level_step(&mut state, &mut world);
    }
    assert_eq!(state.prepare_level_state.mode, PrepareLevelMode::ShortPause);
    assert_eq!(state.prepare_level_state.countdown, 40);
    assert!(ids_with_ball(&world).is_empty());

    for _ in 0..39 {
        prepare_level_step(&mut state, &mut world);
    }
    let paddle = find_paddle(&world).expect("the level has a paddle");
    let report = prepare_level_step(&mut state, &mut world);
    assert_eq!(state.prepare_level_state.mode, PrepareLevelMode::SpawnBall);
    assert_eq!(state.prepare_level_state.countdown, 40);
    assert_eq!(report.spawned.len(), 2);
    assert_eq!(ids_with_ball(&world).len(), 2);
    for (i, ball) in report.spawned.iter().enumerate() {
        let ball = hecs::Entity::from_bits(*ball).unwrap();
        assert_eq!(world.get::<&CTransform>(ball).unwrap().pos, px(120 + 4 * i as i32, 128));
        assert_eq!(world.get::<&Physics>(ball).unwrap().vel, px(0, -20));
        assert_eq!(world.get::<&Shape>(ball).unwrap().dims, px(4, 4));
        assert_eq!(world.get::<&OwnedBy>(ball).unwrap().owner, paddle);
    }
    assert_eq!(state.physics.body_requests.len(), 2);
    let request = state.physics.body_requests[1];
    assert_eq!(request.entity, report.spawned[1]);
    assert_eq!(request.descriptor.kind, BodyKind::Dynamic);
    assert_eq!(request.descriptor.translation, px(124, 128));
    assert_eq!(request.descriptor.velocity, px(0, -20));
    assert_eq!(request.descriptor.half_extents, px(2, 2));
    assert_eq!(request.descriptor.mass, Some(100));
    assert!(request.descriptor.ccd_enabled);
    assert!(request.descriptor.collision_events);
    assert!(request.descriptor.free_flight);
    assert!(!request.descriptor.can_sleep);

    for _ in 0..39 {
        let report = prepare_level_step(&mut state, &mut world);
        assert!(report.pointer.is_none());
        assert_eq!(state.next_game_mode, None);
    }
    let report = prepare_level_step(&mut state, &mut world);
    assert_eq!(report.pointer, Some(px(120, 160)));
    assert_eq!(state.next_game_mode, Some(GameMode::Playing));
    assert_eq!(state.game_mode, GameMode::PrepareLevel);
}

#[test]
fn without_a_paddle_no_ball_appears() {
    let mut world = World::new();
    let mut state = new_state(vec![two_by_two()]);
    state.prepare_level_state.mode = PrepareLevelMode::ShortPause;
    state.prepare_level_state.countdown = 1;
    assert_eq!(find_paddle(&world), None);
    let report = prepare_level_step(&mut state, &mut world);
    assert_eq!(state.prepare_level_state.mode, PrepareLevelMode::SpawnBall);
    assert!(report.spawned.is_empty());
    assert_eq!(world.len(), 0);
}

#[test]
fn level_complete_trigger() {
    let mut world = World::new();
    let mut state = new_state(vec![two_by_two()]);
    let paddle = spawn_paddle(&mut world, &mut state, px(100, 144), px(20, 8), Color::white());
    spawn_ball(&mut world, &mut state, px(120, 128), px(0, -20), paddle);
    spawn_strong_block(&mut world, &mut state, px(5, 3), px(20, 8), Color::red(), 1);
    state.game_mode = GameMode::Playing;
    assert!(no_ordinary_block(&world));
    check_for_level_complete(&world, &mut state);
    assert_eq!(state.next_game_mode, Some(GameMode::LevelComplete));
    assert_eq!(state.audio_command_buffer, vec![AudioCommand::LevelWin]);
    assert_eq!(state.game_mode, GameMode::Playing);

    state.next_game_mode = None;
    state.audio_command_buffer.clear();
    create_bodies(&mut state);
    playing_step_after_physics(&mut state, &mut world);
    assert_eq!(state.next_game_mode, Some(GameMode::LevelComplete));
    transition_game_mode(&mut world, &mut state);
    assert_eq!(state.game_mode, GameMode::LevelComplete);
    assert_eq!(state.level_complete_state.mode, LevelCompleteMode::Announce);
    assert_eq!(state.level_complete_state.countdown, 60);
}

#[test]
fn an_ordinary_block_keeps_the_level_open() {
    let mut world = World::new();
    let mut state = new_state(vec![two_by_two()]);
    let paddle = spawn_paddle(&mut world, &mut state, px(100, 144), px(20, 8), Color::white());
    spawn_ball(&mut world, &mut state, px(120, 128), px(0, -20), paddle);
    spawn_strong_block(&mut world, &mut state, px(5, 3), px(20, 8), Color::red(), 1);
    spawn_block(&mut world, &mut state, px(26, 3), px(20, 8), Color::red(), 1);
    assert!(!no_ordinary_block(&world));
    check_for_level_complete(&world, &mut state);
    assert_eq!(state.next_game_mode, None);
    assert!(state.audio_command_buffer.is_empty());
}

#[test]
fn ball_loss_trigger() {
    let mut world = World::new();
    let mut state = new_state(vec![two_by_two()]);
    spawn_paddle(&mut world, &mut state, px(100, 144), px(20, 8), Color::white());
    spawn_block(&mut world, &mut state, px(26, 3), px(20, 8), Color::red(), 1);
    state.game_mode = GameMode::Playing;
    assert!(no_ball(&world));
    check_for_level_lost(&world, &mut state);
    assert_eq!(state.next_game_mode, Some(GameMode::PrepareLevel));

    state.next_game_mode = None;
    create_bodies(&mut state);
    playing_step_after_physics(&mut state, &mut world);
    assert_eq!(state.next_game_mode, Some(GameMode::PrepareLevel));
    assert!(state.audio_command_buffer.is_empty());
    transition_game_mode(&mut world, &mut state);
    assert_ne!(state.game_mode, GameMode::Playing);
    assert_eq!(state.game_mode, GameMode::PrepareLevel);
    assert_eq!(state.level, 1);
}

#[test]
fn a_ball_keeps_the_level_from_being_lost() {
    let mut world = World::new();
    let mut state = new_state(vec![two_by_two()]);
    let paddle = spawn_paddle(&mut world, &mut state, px(100, 144), px(20, 8), Color::white());
    spawn_ball(&mut world, &mut state, px(120, 128), px(0, -20), paddle);
    assert!(!no_ball(&world));
    check_for_level_lost(&world, &mut state);
    assert_eq!(state.next_game_mode, None);
}

#[test]
fn a_lost_ball_counts_before_a_cleared_level() {
    let mut world = World::new();
    let mut state = new_state(vec![two_by_two()]);
    spawn_paddle(&mut world, &mut state, px(100, 144), px(20, 8), Color::white());
    create_bodies(&mut state);
    state.game_mode = GameMode::Playing;
    playing_step_after_physics(&mut state, &mut world);
    assert_eq!(state.next_game_mode, Some(GameMode::PrepareLevel));
    assert_eq!(state.audio_command_buffer, vec![AudioCommand::LevelWin]);
}

#[test]
fn end_to_end_scenario() {
    let mut world = World::new();
    let mut state = new_state(vec![two_by_two(), one_block()]);
    play_level(&mut world, &mut state);
    assert_eq!(state.level, 1);

    let blocks = ids_with_block(&world);
    assert_eq!(blocks.len(), 4);
    for block in &blocks {
        let block = hecs::Entity::from_bits(*block).unwrap();
        assert_eq!(world.get::<&Health>(block).unwrap().hp, 1);
    }

    // keep one ball
    let balls = ids_with_ball(&world);
    assert_eq!(balls.len(), 2);
    schedule_deletion(&mut state, balls[1]);
    playing_step_after_physics(&mut state, &mut world);
    assert_eq!(ids_with_ball(&world), vec![balls[0]]);
    assert_eq!(state.next_game_mode, None);
    let ball = balls[0];

    for (hit, block) in blocks.iter().enumerate() {
        state.audio_command_buffer.clear();
        state.render_command_buffer.clear();
        let spawned = playing_step(&mut state, &mut world);
        assert!(spawned.is_empty());
        state.physics.collision_events = vec![contact(&state, ball, *block)];
        let removed = playing_step_after_physics(&mut state, &mut world);
        assert_eq!(removed.len(), 1);
        assert_eq!(ids_with_block(&world).len(), 3 - hit);
        assert!(state.deletion_events.is_empty());
        transition_game_mode(&mut world, &mut state);
        if hit < 3 {
            assert_eq!(state.game_mode, GameMode::Playing);
            assert_eq!(state.next_game_mode, None);
            assert_eq!(state.audio_command_buffer, vec![AudioCommand::BallBlockBounce]);
        } else {
            assert_eq!(state.game_mode, GameMode::LevelComplete);
            assert_eq!(
                state.audio_command_buffer,
                vec![AudioCommand::BallBlockBounce, AudioCommand::LevelWin]
            );
        }
    }
    assert_eq!(state.physics.rigid_body_set.len(), 6);
}

#[test]
fn completion_leads_to_the_next_level_and_then_to_the_win() {
    let mut world = World::new();
    let mut state = new_state(vec![two_by_two(), one_block()]);
    level_complete_init_state(&mut world, &mut state);
    state.game_mode = GameMode::LevelComplete;
    for _ in 0..59 {
        level_complete_step(&mut state, &mut world);
    }
    assert_eq!(state.level_complete_state.mode, LevelCompleteMode::Announce);
    level_complete_step(&mut state, &mut world);
    assert_eq!(state.level_complete_state.mode, LevelCompleteMode::Announce2);
    assert_eq!(state.level_complete_state.countdown, 80);
    for _ in 0..80 {
        level_complete_step(&mut state, &mut world);
    }
    assert_eq!(state.level_complete_state.mode, LevelCompleteMode::Pause);
    assert_eq!(state.level_complete_state.countdown, 80);
    for _ in 0..79 {
        level_complete_step(&mut state, &mut world);
        assert_eq!(state.next_game_mode, None);
        assert_eq!(state.level, 1);
    }
    level_complete_step(&mut state, &mut world);
    assert_eq!(state.level, 2);
    assert_eq!(state.next_game_mode, Some(GameMode::PrepareLevel));

    transition_game_mode(&mut world, &mut state);
    assert_eq!(state.game_mode, GameMode::PrepareLevel);
    let blocks = ids_with_block(&world);
    assert_eq!(blocks.len(), 1);
    let block = hecs::Entity::from_bits(blocks[0]).unwrap();
    assert_eq!(world.get::<&Health>(block).unwrap().hp, 2);
    assert_eq!(world.get::<&CTransform>(block).unwrap().pos, px(5 + 21 * 10, 3 + 9 * 13));
    assert_eq!(world.get::<&Block>(block).unwrap().color, palette()[9]);

    state.level_complete_state.mode = LevelCompleteMode::Pause;
    state.level_complete_state.countdown = 1;
    level_complete_step(&mut state, &mut world);
    assert_eq!(state.level, 3);
    assert_eq!(state.next_game_mode, Some(GameMode::WinGame));
    transition_game_mode(&mut world, &mut state);
    assert_eq!(state.game_mode, GameMode::WinGame);
    assert_eq!(state.win_game_state.mode, WinGameMode::Announce);
    assert_eq!(state.win_game_state.countdown, 60);
}

#[test]
fn a_won_game_returns_to_the_title() {
    let mut world = World::new();
    let mut state = new_state(vec![two_by_two()]);
    state.level = 2;
    win_game_init_state(&mut world, &mut state);
    state.game_mode = GameMode::WinGame;
    let mut ticks = 0;
    while state.next_game_mode.is_none() {
        if ticks % 2 == 0 {
            step(&mut world, &mut state);
        } else {
            win_game_step(&mut state, &mut world);
        }
        ticks += 1;
        assert!(ticks <= 1000);
    }
    assert_eq!(ticks, 60 + 80 + 80);
    assert_eq!(state.next_game_mode, Some(GameMode::Title));
    world.spawn((Ball,));
    state.deletion_events.push(hecs_arkanoid::state::DeletionEvent::Entity { entity: 77 });
    transition_game_mode(&mut world, &mut state);
    assert_eq!(state.game_mode, GameMode::Title);
    assert_eq!(state.level, 1);
    assert_eq!(world.len(), 0);
    assert!(state.deletion_events.is_empty());
}

#[test]
fn a_lost_game_returns_to_the_title() {
    let mut world = World::new();
    let mut state = new_state(vec![two_by_two()]);
    world.spawn((Ball,));
    state.next_game_mode = Some(GameMode::GameOver);
    transition_game_mode(&mut world, &mut state);
    assert_eq!(state.game_mode, GameMode::GameOver);
    assert_eq!(world.len(), 0);
    assert_eq!(state.game_over_state.mode, GameOverMode::Announce);
    assert_eq!(state.game_over_state.countdown, 60);
    for _ in 0..60 {
        game_over_step(&mut state, &mut world);
    }
    assert_eq!(state.game_over_state.mode, GameOverMode::Announce2);
    for _ in 0..80 {
        game_over_step(&mut state, &mut world);
    }
    assert_eq!(state.game_over_state.mode, GameOverMode::Pause);
    for _ in 0..79 {
        game_over_step(&mut state, &mut world);
    }
    assert_eq!(state.next_game_mode, None);
    game_over_step(&mut state, &mut world);
    assert_eq!(state.next_game_mode, Some(GameMode::Title));
}

#[test]
fn entering_a_mode_by_hand() {
    let mut world = World::new();
    let mut state = new_state(vec![two_by_two()]);
    world.spawn((Ball,));
    playing_init_state(&mut world, &mut state);
    assert_eq!(world.len(), 1);
    title_step(&mut state, &mut world);
    assert_eq!(world.len(), 1);
    game_over_init_state(&mut world, &mut state);
    assert_eq!(world.len(), 0);
    world.spawn((Ball,));
    state.level = 2;
    title_init_state(&mut world, &mut state);
    assert_eq!(world.len(), 0);
    assert_eq!(state.level, 1);
}

#[test]
fn spawn_level_replaces_the_blocks_and_clamps_the_level() {
    let mut world = World::new();
    let mut state = new_state(vec![two_by_two(), one_block()]);
    let paddle = spawn_paddle(&mut world, &mut state, px(100, 144), px(20, 8), Color::white());
    let first = spawn_level(&mut world, &mut state, 1);
    assert_eq!(first.len(), 4);
    create_bodies(&mut state);
    assert_eq!(state.physics.rigid_body_set.len(), 5);

    let second = spawn_level(&mut world, &mut state, 99);
    assert_eq!(second.len(), 1);
    assert_eq!(ids_with_block(&world), second);
    assert_eq!(state.physics.rigid_body_set.len(), 1);
    assert!(state.physics.get_rigid_body_handle(paddle).is_some());
    assert!(first.iter().all(|b| state.physics.get_rigid_body_handle(*b).is_none()));
    create_bodies(&mut state);

    let third = spawn_level(&mut world, &mut state, 0);
    assert_eq!(third.len(), 4);
    assert_eq!(ids_with_block(&world).len(), 4);
    assert_eq!(count_paddles(&world), 1);
}

#[test]
fn delete_all_blocks_removes_strong_blocks_too() {
    let mut world = World::new();
    let mut state = new_state(vec![two_by_two()]);
    let paddle = spawn_paddle(&mut world, &mut state, px(100, 144), px(20, 8), Color::white());
    spawn_block(&mut world, &mut state, px(5, 3), px(20, 8), Color::red(), 1);
    spawn_strong_block(&mut world, &mut state, px(26, 3), px(20, 8), Color::red(), 1);
    create_bodies(&mut state);
    delete_all_blocks(&mut world, &mut state);
    assert!(ids_with_block(&world).is_empty());
    assert_eq!(world.len(), 1);
    assert_eq!(state.physics.rigid_body_set.len(), 1);
    assert!(state.physics.get_rigid_body_handle(paddle).is_some());
}

#[test]
fn first_half_of_a_playing_tick_places_the_paddle_and_fixes_the_angle() {
    let mut world = World::new();
    let mut state = new_state(vec![two_by_two()]);
    play_level(&mut world, &mut state);
    create_bodies(&mut state);
    let mut raw = no_input();
    raw.mouse_pos = px(50, 7);
    process_input(&raw, &mut state);
    state.level_change_delay = 3;
    let report = step(&mut world, &mut state);
    assert!(report.spawned.is_empty());
    assert!(report.pointer.is_none());
    assert_eq!(state.level_change_delay, 2);
    let paddle = hecs::Entity::from_bits(find_paddle(&world).unwrap()).unwrap();
    assert_eq!(world.get::<&CTransform>(paddle).unwrap().pos, px(40, 144));
    for ball in ids_with_ball(&world) {
        let ball = hecs::Entity::from_bits(ball).unwrap();
        assert_eq!(world.get::<&Physics>(ball).unwrap().vel, Vec2::new(BALL_SPEED_X, -BALL_SPEED_Y));
    }
}

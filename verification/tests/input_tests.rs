use hecs::World;
use hecs_arkanoid::components::{CTransform, Color, Vec2};
use hecs_arkanoid::entity_archetypes::{spawn_block, spawn_paddle};
use hecs_arkanoid::input_processing::{
    game_over_process_input, level_complete_process_input, playing_process_input,
    prepare_level_process_input, process_input, title_process_input, win_game_process_input,
    PlayingInputs, RawInputs, TitleInputs,
};
use hecs_arkanoid::level_data::LevelTable;
use hecs_arkanoid::state::{GameMode, State, LEVEL_CHANGE_DELAY_DEFAULT};
use hecs_arkanoid::systems::playing::input_processing::{place_paddles, process_inputs};

fn new_state() -> State {
    let mut first = [[0u8; 11]; 16];
    first[2][0] = 1;
    let mut second = [[0u8; 11]; 16];
    second[2][0] = 9;
    second[2][1] = 9;
    State::new(LevelTable::new(vec![first, second], [Color::white(); 10]).unwrap())
}

fn raw() -> RawInputs {
    RawInputs {
        escape_pressed: false,
        space_pressed: false,
        space_down: false,
        left_down: false,
        right_down: false,
        mouse_pos: Vec2::new(11, 22),
    }
}

#[test]
fn inputs_start_empty() {
    assert_eq!(TitleInputs::new(), TitleInputs { confirm: false });
    assert_eq!(
        PlayingInputs::new(),
        PlayingInputs {
            left: false,
            right: false,
            confirm: false,
            next_level: false,
            previous_level: false
        }
    );
}

#[test]
fn title_reads_escape_pointer_and_space() {
    let mut state = new_state();
    title_process_input(&raw(), &mut state);
    assert!(state.running);
    assert_eq!(state.next_game_mode, None);
    assert_eq!(state.mouse_screen_pos, Vec2::new(11, 22));
    assert!(!state.title_inputs.confirm);

    let mut confirm = raw();
    confirm.space_pressed = true;
    title_process_input(&confirm, &mut state);
    assert!(state.running);
    assert!(state.title_inputs.confirm);
    assert_eq!(state.next_game_mode, Some(GameMode::PrepareLevel));

    let mut escape = raw();
    escape.escape_pressed = true;
    title_process_input(&escape, &mut state);
    assert!(!state.running);
    assert_eq!(state.next_game_mode, Some(GameMode::PrepareLevel));
    title_process_input(&raw(), &mut state);
    assert!(!state.running);
}

#[test]
fn playing_reads_the_held_keys() {
    let mut state = new_state();
    let mut held = raw();
    held.left_down = true;
    held.space_down = true;
    held.space_pressed = true;
    playing_process_input(&held, &mut state);
    assert_eq!(
        state.playing_inputs,
        PlayingInputs {
            left: true,
            right: false,
            confirm: true,
            next_level: false,
            previous_level: false
        }
    );
    assert_eq!(state.mouse_screen_pos, Vec2::new(11, 22));
    assert_eq!(state.next_game_mode, None);
    assert!(state.running);
    held.escape_pressed = true;
    held.left_down = false;
    held.right_down = true;
    playing_process_input(&held, &mut state);
    assert!(!state.running);
    assert!(state.playing_inputs.right && !state.playing_inputs.left);
}

#[test]
fn end_screens_return_to_the_title_on_space() {
    let mut confirm = raw();
    confirm.space_pressed = true;
    let mut state = new_state();
    win_game_process_input(&confirm, &mut state);
    assert_eq!(state.next_game_mode, Some(GameMode::Title));
    assert!(state.title_inputs.confirm);
    assert_eq!(state.mouse_screen_pos, Vec2::new(0, 0));

    let mut state = new_state();
    game_over_process_input(&raw(), &mut state);
    assert_eq!(state.next_game_mode, None);
    game_over_process_input(&confirm, &mut state);
    assert_eq!(state.next_game_mode, Some(GameMode::Title));
    let mut escape = raw();
    escape.escape_pressed = true;
    game_over_process_input(&escape, &mut state);
    assert!(!state.running);
}

#[test]
fn preparation_and_completion_read_nothing() {
    let mut all = raw();
    all.escape_pressed = true;
    all.space_pressed = true;
    let mut state = new_state();
    prepare_level_process_input(&all, &mut state);
    level_complete_process_input(&all, &mut state);
    assert!(state.running);
    assert_eq!(state.next_game_mode, None);
    assert_eq!(state.mouse_screen_pos, Vec2::new(0, 0));
}

#[test]
fn input_goes_to_the_current_mode() {
    let mut all = raw();
    all.space_pressed = true;
    for (mode, expected) in [
        (GameMode::Title, Some(GameMode::PrepareLevel)),
        (GameMode::PrepareLevel, None),
        (GameMode::Playing, None),
        (GameMode::LevelComplete, None),
        (GameMode::WinGame, Some(GameMode::Title)),
        (GameMode::GameOver, Some(GameMode::Title)),
    ] {
        let mut state = new_state();
        state.game_mode = mode;
        process_input(&all, &mut state);
        assert_eq!(state.next_game_mode, expected);
        assert_eq!(state.game_mode, mode);
    }
}

#[test]
fn the_paddle_is_centred_at_the_pointer() {
    let mut world = World::new();
    let mut state = new_state();
    let paddle = spawn_paddle(
        &mut world,
        &mut state,
        Vec2::new(100 * 1024, 144 * 1024),
        Vec2::new(20 * 1024, 8 * 1024),
        Color::white(),
    );
    let block = spawn_block(
        &mut world,
        &mut state,
        Vec2::new(5 * 1024, 3 * 1024),
        Vec2::new(20 * 1024, 8 * 1024),
        Color::white(),
        1,
    );
    place_paddles(&mut world, 60 * 1024);
    let paddle = hecs::Entity::from_bits(paddle).unwrap();
    let block = hecs::Entity::from_bits(block).unwrap();
    assert_eq!(world.get::<&CTransform>(paddle).unwrap().pos, Vec2::new(50 * 1024, 144 * 1024));
    assert_eq!(world.get::<&CTransform>(block).unwrap().pos, Vec2::new(5 * 1024, 3 * 1024));
    place_paddles(&mut world, i32::MIN);
    assert_eq!(world.get::<&CTransform>(paddle).unwrap().pos, Vec2::new(i32::MIN, 144 * 1024));
    place_paddles(&mut world, i32::MAX);
    assert_eq!(
        world.get::<&CTransform>(paddle).unwrap().pos,
        Vec2::new(i32::MAX - 10 * 1024, 144 * 1024)
    );
}

#[test]
fn a_change_of_level_respawns_the_blocks_and_waits() {
    let mut world = World::new();
    let mut state = new_state();
    state.playing_inputs.next_level = true;
    let blocks = process_inputs(&mut world, &mut state);
    assert_eq!(state.level, 2);
    assert_eq!(state.level_change_delay, LEVEL_CHANGE_DELAY_DEFAULT);
    assert_eq!(state.level_change_delay, 10);
    assert_eq!(blocks.len(), 2);
    assert_eq!(world.len(), 2);

    let blocks = process_inputs(&mut world, &mut state);
    assert!(blocks.is_empty());
    assert_eq!(state.level, 2);

    state.level_change_delay = 0;
    state.playing_inputs.next_level = false;
    state.playing_inputs.previous_level = true;
    let blocks = process_inputs(&mut world, &mut state);
    assert_eq!(state.level, 1);
    assert_eq!(blocks.len(), 1);
    assert_eq!(world.len(), 1);

    state.level_change_delay = 0;
    let blocks = process_inputs(&mut world, &mut state);
    assert!(blocks.is_empty());
    assert_eq!(state.level, 1);
    assert_eq!(state.level_change_delay, 0);
    assert_eq!(world.len(), 1);
}

#[test]
fn the_level_never_passes_the_one_after_the_last() {
    let mut world = World::new();
    let mut state = new_state();
    state.playing_inputs.next_level = true;
    for expected in [2, 3, 3, 3] {
        state.level_change_delay = 0;
        let blocks = process_inputs(&mut world, &mut state);
        assert_eq!(state.level, expected);
        assert_eq!(blocks.len(), 2);
    }
}

//! From the keys and the pointer of one frame to the intents of the player.

use vstd::prelude::*;
use crate::components::Vec2;
use crate::state::{GameMode, State};

verus! {

/// The intents that the title screen and the end screens read.
#[derive(Clone, Copy, Debug, PartialEq, Eq, Structural)]
pub struct TitleInputs {
    pub confirm: bool,
}

impl TitleInputs {
    /// No intent.
    pub fn new() -> (inputs: TitleInputs)
        ensures
            inputs == (TitleInputs { confirm: false }),
    {
        TitleInputs { confirm: false }
    }
}

/// The intents that live play reads.
#[derive(Clone, Copy, Debug, PartialEq, Eq, Structural)]
pub struct PlayingInputs {
    pub left: bool,
    pub right: bool,
    pub confirm: bool,
    pub next_level: bool,
    pub previous_level: bool,
}

impl PlayingInputs {
    /// No intent.
    pub fn new() -> (inputs: PlayingInputs)
        ensures
            inputs == (PlayingInputs {
                left: false,
                right: false,
                confirm: false,
                next_level: false,
                previous_level: false,
            }),
    {
        PlayingInputs {
            left: false,
            right: false,
            confirm: false,
            next_level: false,
            previous_level: false,
        }
    }
}

/// What the input devices show in one frame.
#[derive(Clone, Copy, Debug, PartialEq, Eq, Structural)]
pub struct RawInputs {
    /// Escape went down in this frame.
    pub escape_pressed: bool,
    /// Space went down in this frame.
    pub space_pressed: bool,
    /// Space is held.
    pub space_down: bool,
    /// The key for moving left is held.
    pub left_down: bool,
    /// The key for moving right is held.
    pub right_down: bool,
    /// Where the pointer is, in length units of the play field.
    pub mouse_pos: Vec2,
}

/// The state after the title read `raw`: escape ends the session, space
/// asks for the preparation of the level.
pub open spec fn title_input(before: State, raw: RawInputs) -> State {
    State {
        running: before.running && !raw.escape_pressed,
        mouse_screen_pos: raw.mouse_pos,
        title_inputs: TitleInputs { confirm: raw.space_pressed },
        next_game_mode: if raw.space_pressed {
            Some(GameMode::PrepareLevel)
        } else {
            before.next_game_mode
        },
        ..before
    }
}

/// The state after live play read `raw`: escape ends the session; the
/// pointer and the held keys become the intents of the player. No key asks
/// for a change of level.
pub open spec fn playing_input(before: State, raw: RawInputs) -> State {
    State {
        running: before.running && !raw.escape_pressed,
        mouse_screen_pos: raw.mouse_pos,
        playing_inputs: PlayingInputs {
            left: raw.left_down,
            right: raw.right_down,
            confirm: raw.space_down,
            next_level: false,
            previous_level: false,
        },
        ..before
    }
}

/// The state after the end of a won game read `raw`: escape ends the
/// session, space asks for the title.
pub open spec fn win_game_input(before: State, raw: RawInputs) -> State {
    State {
        running: before.running && !raw.escape_pressed,
        title_inputs: TitleInputs { confirm: raw.space_pressed },
        next_game_mode: if raw.space_pressed {
            Some(GameMode::Title)
        } else {
            before.next_game_mode
        },
        ..before
    }
}

/// The state after the end of a lost game read `raw`: escape ends the
/// session, space asks for the title.
pub open spec fn game_over_input(before: State, raw: RawInputs) -> State {
    State {
        running: before.running && !raw.escape_pressed,
        next_game_mode: if raw.space_pressed {
            Some(GameMode::Title)
        } else {
            before.next_game_mode
        },
        ..before
    }
}

/// The state after the current mode read `raw`. The preparation and the
/// completion of a level read nothing.
pub open spec fn input_of(before: State, raw: RawInputs) -> State {
    match before.game_mode {
        GameMode::Title => title_input(before, raw),
        GameMode::PrepareLevel => before,
        GameMode::Playing => playing_input(before, raw),
        GameMode::LevelComplete => before,
        GameMode::WinGame => win_game_input(before, raw),
        GameMode::GameOver => game_over_input(before, raw),
    }
}

/// Hands what the input devices show to the current mode.
pub fn process_input(raw: &RawInputs, state: &mut State)
    ensures
        *final(state) == input_of(*old(state), *raw),
{
    match state.game_mode {
        GameMode::Title => {
            title_process_input(raw, state);
        },
        GameMode::PrepareLevel => {
            prepare_level_process_input(raw, state);
        },
        GameMode::Playing => {
            playing_process_input(raw, state);
        },
        GameMode::LevelComplete => {
            level_complete_process_input(raw, state);
        },
        GameMode::WinGame => {
            win_game_process_input(raw, state);
        },
        GameMode::GameOver => {
            game_over_process_input(raw, state);
        },
    }
}

/// The title reads escape, the pointer and space.
pub fn title_process_input(raw: &RawInputs, state: &mut State)
    ensures
        *final(state) == title_input(*old(state), *raw),
{
    if raw.escape_pressed {
        state.running = false;
    }
    state.mouse_screen_pos = raw.mouse_pos;
    let title_inputs = TitleInputs { confirm: raw.space_pressed };
    if title_inputs.confirm {
        state.next_game_mode = Some(GameMode::PrepareLevel);
    }
    state.title_inputs = title_inputs;
}

/// The preparation of a level reads nothing.
pub fn prepare_level_process_input(raw: &RawInputs, state: &mut State)
    ensures
        *final(state) == *old(state),
{
}

/// Live play reads escape, the pointer and the held keys.
pub fn playing_process_input(raw: &RawInputs, state: &mut State)
    ensures
        *final(state) == playing_input(*old(state), *raw),
{
    if raw.escape_pressed {
        state.running = false;
    }
    state.mouse_screen_pos = raw.mouse_pos;
    state.playing_inputs = PlayingInputs {
        left: raw.left_down,
        right: raw.right_down,
        confirm: raw.space_down,
        next_level: false,
        previous_level: false,
    };
}

/// The completion of a level reads nothing.
pub fn level_complete_process_input(raw: &RawInputs, state: &mut State)
    ensures
        *final(state) == *old(state),
{
}

/// The end of a won game reads escape and space.
pub fn win_game_process_input(raw: &RawInputs, state: &mut State)
    ensures
        *final(state) == win_game_input(*old(state), *raw),
{
    if raw.escape_pressed {
        state.running = false;
    }
    let title_inputs = TitleInputs { confirm: raw.space_pressed };
    if title_inputs.confirm {
        state.next_game_mode = Some(GameMode::Title);
    }
    state.title_inputs = title_inputs;
}

/// The end of a lost game reads escape and space.
pub fn game_over_process_input(raw: &RawInputs, state: &mut State)
    ensures
        *final(state) == game_over_input(*old(state), *raw),
{
    if raw.escape_pressed {
        state.running = false;
    }
    if raw.space_pressed {
        state.next_game_mode = Some(GameMode::Title);
    }
}

} // verus!

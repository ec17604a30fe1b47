//! What the renderer is asked to draw in a frame, by game mode.

use vstd::prelude::*;
use crate::components::Color;
use crate::render_commands::{
    calls, calls_for_all, calls_of_push, decimal, decimal_text, Draw, DrawCall, drawings,
    execute_render_command_buffer, join,
};
use crate::state::{GameMode, LevelCompleteMode, PrepareLevelMode, State};

verus! {

broadcast use vstd::string::to_string_from_display_ensures_for_str;

/// Where headlines start: 36 pixels from the left.
pub const HEADLINE_X: i32 = 36;

/// Where headlines start: 64 pixels from the top.
pub const HEADLINE_Y: i32 = 64;

/// Where the line below a headline starts: 94 pixels from the top.
pub const SUBTITLE_Y: i32 = 94;

/// Where the headline of a lost game starts: 67 pixels from the left.
pub const GAME_OVER_X: i32 = 67;

/// The size of a headline.
pub const HEADLINE_SIZE: i32 = 20;

/// The size of small print.
pub const SMALL_SIZE: i32 = 1;

/// The number of messages of encouragement.
pub const MESSAGE_COUNT: usize = 35;

/// What a cleared level is answered with: the message of level 1 first.
pub const MESSAGES_OF_ENCOURAGEMENT: [&'static str; 35] = [
    "good job",
    "chill",
    "cool",
    "sweet",
    "dope",
    "lit",
    "on point",
    "solid",
    "keep going",
    "smooth",
    "noice",
    "vibin",
    "clutch",
    "fresh",
    "sick",
    "keep it real",
    "killing it",
    "fire",
    "easy",
    "breezy",
    "you got it",
    "right on",
    "savage",
    "clean",
    "crisp",
    "effortless",
    "hype",
    "groovy",
    "stylish",
    "gucci",
    "sleek",
    "rad",
    "gnarly",
    "aces",
    "epic",
];

/// Pure white.
pub open spec fn white() -> Color {
    Color { r: 255, g: 255, b: 255, a: 255 }
}

/// The off-white of outlines.
pub open spec fn raywhite() -> Color {
    Color { r: 245, g: 245, b: 245, a: 255 }
}

/// A text at the given place, in pixels.
pub open spec fn text_at(text: Seq<char>, x: i32, y: i32, size: i32, color: Color) -> Draw<
    Seq<char>,
> {
    Draw::Text { text, x, y, size, color }
}

fn push_text(list: &mut Vec<DrawCall>, text: String, x: i32, y: i32, size: i32, color: Color)
    ensures
        calls(final(list)@) == calls(old(list)@).push(text_at(text@, x, y, size, color)),
{
    let call = Draw::Text { text, x, y, size, color };
    proof {
        calls_of_push(list@, call);
    }
    list.push(call);
}

/// What the title shows.
pub open spec fn title_calls() -> Seq<Draw<Seq<char>>> {
    seq![
        text_at("HECS-arkanoid!"@, HEADLINE_X, HEADLINE_Y, HEADLINE_SIZE, white()),
        text_at("press space to start"@, HEADLINE_X, SUBTITLE_Y, SMALL_SIZE, white()),
    ]
}

/// What the preparation of a level shows above the world: the mode, the
/// sub-phase and its count, and the number of the level while it is announced.
pub open spec fn prepare_level_calls(state: State) -> Seq<Draw<Seq<char>>> {
    let status = seq![
        text_at("GameMode: PrepareLevel"@, HEADLINE_X, 112, SMALL_SIZE, white()),
        text_at(
            "Mode: "@ + state.prepare_level_state.mode.name(),
            HEADLINE_X,
            128,
            SMALL_SIZE,
            white(),
        ),
        text_at(
            "Countdown: "@ + decimal_text(state.prepare_level_state.countdown as i64),
            HEADLINE_X,
            144,
            SMALL_SIZE,
            white(),
        ),
    ];
    if state.prepare_level_state.mode == PrepareLevelMode::AnnounceLevel {
        status.push(
            text_at(
                "LeveL: "@ + decimal_text(state.level as i64),
                HEADLINE_X,
                HEADLINE_Y,
                HEADLINE_SIZE,
                white(),
            ),
        )
    } else {
        status
    }
}

/// The message of encouragement for a cleared level; after the last message
/// the first follows again.
pub open spec fn encouragement(level: u32) -> Seq<char> {
    let index = if level == 0 {
        0
    } else {
        (level - 1) % (MESSAGE_COUNT as int)
    };
    MESSAGES_OF_ENCOURAGEMENT[index]@
}

/// What the completion of a level shows: a message of encouragement first,
/// then a word on the way ahead, then nothing.
pub open spec fn level_complete_calls(state: State) -> Seq<Draw<Seq<char>>> {
    match state.level_complete_state.mode {
        LevelCompleteMode::Announce => seq![
            text_at(encouragement(state.level), HEADLINE_X, HEADLINE_Y, HEADLINE_SIZE, raywhite()),
        ],
        LevelCompleteMode::Announce2 => seq![
            text_at(
                if state.level == 1 {
                    "you did it"@
                } else {
                    "keep going"@
                },
                HEADLINE_X,
                HEADLINE_Y,
                HEADLINE_SIZE,
                raywhite(),
            ),
        ],
        LevelCompleteMode::Pause => Seq::empty(),
    }
}

/// What the end of a won game shows.
pub open spec fn win_game_calls() -> Seq<Draw<Seq<char>>> {
    seq![text_at("tally score and stuff"@, HEADLINE_X, HEADLINE_Y, HEADLINE_SIZE, raywhite())]
}

/// What the end of a lost game shows.
pub open spec fn game_over_calls() -> Seq<Draw<Seq<char>>> {
    seq![
        text_at("GAME OVER!"@, GAME_OVER_X, HEADLINE_Y, HEADLINE_SIZE, white()),
        text_at("press space"@, GAME_OVER_X, SUBTITLE_Y, SMALL_SIZE, white()),
    ]
}

/// The world as the render commands of the latest tick draw it.
pub open spec fn playing_calls(state: State) -> Seq<Draw<Seq<char>>> {
    calls_for_all(drawings(state.render_command_buffer@))
}

/// Everything that a frame shows in the current mode.
pub open spec fn frame_calls(state: State) -> Seq<Draw<Seq<char>>> {
    match state.game_mode {
        GameMode::Title => title_calls(),
        GameMode::PrepareLevel => prepare_level_calls(state) + playing_calls(state),
        GameMode::Playing => playing_calls(state),
        GameMode::LevelComplete => level_complete_calls(state),
        GameMode::WinGame => win_game_calls(),
        GameMode::GameOver => game_over_calls(),
    }
}

/// Appends what the frame shows in the current mode to `list`.
pub fn draw(state: &State, list: &mut Vec<DrawCall>)
    ensures
        calls(final(list)@) == calls(old(list)@) + frame_calls(*state),
{
    match state.game_mode {
        GameMode::Title => {
            title_render(state, list);
        },
        GameMode::PrepareLevel => {
            prepare_level_render(state, list);
        },
        GameMode::Playing => {
            playing_render(state, list);
        },
        GameMode::LevelComplete => {
            level_complete_render(state, list);
        },
        GameMode::WinGame => {
            win_game_render(state, list);
        },
        GameMode::GameOver => {
            game_over_render(state, list);
        },
    }
}

/// Appends the title to `list`.
pub fn title_render(_state: &State, list: &mut Vec<DrawCall>)
    ensures
        calls(final(list)@) == calls(old(list)@) + title_calls(),
{
    push_text(list, "HECS-arkanoid!".to_string(), HEADLINE_X, HEADLINE_Y, HEADLINE_SIZE, Color::white());
    push_text(list, "press space to start".to_string(), HEADLINE_X, SUBTITLE_Y, SMALL_SIZE, Color::white());
    assert(calls(list@) =~= calls(old(list)@) + title_calls());
}

/// Appends the status of the preparation and the world to `list`.
pub fn prepare_level_render(state: &State, list: &mut Vec<DrawCall>)
    ensures
        calls(final(list)@) == calls(old(list)@) + (prepare_level_calls(*state) + playing_calls(
            *state,
        )),
{
    push_text(list, "GameMode: PrepareLevel".to_string(), HEADLINE_X, 112, SMALL_SIZE, Color::white());
    let mode = state.prepare_level_state.mode.to_string();
    push_text(list, join("Mode: ", mode.as_str()), HEADLINE_X, 128, SMALL_SIZE, Color::white());
    let count = decimal(state.prepare_level_state.countdown as i64);
    push_text(list, join("Countdown: ", count.as_str()), HEADLINE_X, 144, SMALL_SIZE, Color::white());
    if state.prepare_level_state.mode == PrepareLevelMode::AnnounceLevel {
        let level = decimal(state.level as i64);
        push_text(
            list,
            join("LeveL: ", level.as_str()),
            HEADLINE_X,
            HEADLINE_Y,
            HEADLINE_SIZE,
            Color::white(),
        );
    }
    assert(calls(list@) =~= calls(old(list)@) + prepare_level_calls(*state));
    playing_render(state, list);
    assert(calls(list@) =~= calls(old(list)@) + (prepare_level_calls(*state) + playing_calls(
        *state,
    )));
}

/// Appends the world to `list`, as the render commands of the latest tick draw it.
pub fn playing_render(state: &State, list: &mut Vec<DrawCall>)
    ensures
        calls(final(list)@) == calls(old(list)@) + playing_calls(*state),
{
    execute_render_command_buffer(list, &state.render_command_buffer);
}

/// Appends what the completion of a level shows to `list`.
pub fn level_complete_render(state: &State, list: &mut Vec<DrawCall>)
    ensures
        calls(final(list)@) == calls(old(list)@) + level_complete_calls(*state),
{
    match state.level_complete_state.mode {
        LevelCompleteMode::Announce => {
            let index: usize = if state.level == 0 {
                0
            } else {
                ((state.level - 1) % (MESSAGE_COUNT as u32)) as usize
            };
            let title = MESSAGES_OF_ENCOURAGEMENT[index];
            push_text(list, title.to_string(), HEADLINE_X, HEADLINE_Y, HEADLINE_SIZE, Color::raywhite());
        },
        LevelCompleteMode::Announce2 => {
            let title = if state.level == 1 {
                "you did it"
            } else {
                "keep going"
            };
            push_text(list, title.to_string(), HEADLINE_X, HEADLINE_Y, HEADLINE_SIZE, Color::raywhite());
        },
        LevelCompleteMode::Pause => {},
    }
    assert(calls(list@) =~= calls(old(list)@) + level_complete_calls(*state));
}

/// Appends what the end of a won game shows to `list`.
pub fn win_game_render(_state: &State, list: &mut Vec<DrawCall>)
    ensures
        calls(final(list)@) == calls(old(list)@) + win_game_calls(),
{
    push_text(
        list,
        "tally score and stuff".to_string(),
        HEADLINE_X,
        HEADLINE_Y,
        HEADLINE_SIZE,
        Color::raywhite(),
    );
    assert(calls(list@) =~= calls(old(list)@) + win_game_calls());
}

/// Appends what the end of a lost game shows to `list`.
pub fn game_over_render(_state: &State, list: &mut Vec<DrawCall>)
    ensures
        calls(final(list)@) == calls(old(list)@) + game_over_calls(),
{
    push_text(list, "GAME OVER!".to_string(), GAME_OVER_X, HEADLINE_Y, HEADLINE_SIZE, Color::white());
    push_text(list, "press space".to_string(), GAME_OVER_X, SUBTITLE_Y, SMALL_SIZE, Color::white());
    assert(calls(list@) =~= calls(old(list)@) + game_over_calls());
}

} // verus!

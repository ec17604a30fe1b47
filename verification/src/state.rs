//! The state of a session: the game mode with its timed sub-phases, the
//! command buffers of the current tick and the physics adapter.

use vstd::prelude::*;
use crate::audio_playing::{AudioCommand, AudioCommandBuffer};
use crate::components::{EntityId, Vec2};
use crate::input_processing::{PlayingInputs, TitleInputs};
use crate::level_data::LevelTable;
use crate::message_stream::{ExpiringMessage, ExpiringMessages};
use crate::physics_engine::PhysicsEngine;
use crate::render_commands::{RenderCommand, RenderCommandBuffer};

verus! {

broadcast use vstd::string::to_string_from_display_ensures_for_str;

/// Simulation ticks per second.
pub const FRAMES_PER_SECOND: u32 = 120;

/// Ticks between two level changes that the player asks for.
pub const LEVEL_CHANGE_DELAY_DEFAULT: u32 = 10;

#[derive(Clone, Copy, Debug, PartialEq, Eq, Structural)]
pub enum GameMode {
    Title,
    PrepareLevel,
    Playing,
    LevelComplete,
    WinGame,
    GameOver,
}

/// A removal that waits for the end of the tick.
#[derive(Clone, Copy, Debug, PartialEq, Eq, Structural)]
pub enum DeletionEvent {
    /// The entity leaves the world.
    Entity { entity: EntityId },
    /// The entity's body leaves the physics world.
    Physics { entity: EntityId },
}

#[derive(Clone, Copy, Debug, PartialEq, Eq, Structural)]
pub enum PrepareLevelMode {
    SpawnStuffIn,
    AnnounceLevel,
    ShortPause,
    SpawnBall,
}

impl PrepareLevelMode {
    /// The name of the sub-phase.
    pub open spec fn name(self) -> Seq<char> {
        match self {
            PrepareLevelMode::SpawnStuffIn => "SpawnStuffIn"@,
            PrepareLevelMode::AnnounceLevel => "AnnounceLevel"@,
            PrepareLevelMode::ShortPause => "ShortPause"@,
            PrepareLevelMode::SpawnBall => "SpawnBall"@,
        }
    }

    /// The name of the sub-phase.
    pub fn to_string(&self) -> (name: String)
        ensures
            name@ == self.name(),
    {
        match self {
            PrepareLevelMode::SpawnStuffIn => "SpawnStuffIn".to_string(),
            PrepareLevelMode::AnnounceLevel => "AnnounceLevel".to_string(),
            PrepareLevelMode::ShortPause => "ShortPause".to_string(),
            PrepareLevelMode::SpawnBall => "SpawnBall".to_string(),
        }
    }
}

#[derive(Clone, Copy, Debug, PartialEq, Eq, Structural)]
pub enum LevelCompleteMode {
    Announce,
    Announce2,
    Pause,
}

impl LevelCompleteMode {
    /// The name of the sub-phase.
    pub open spec fn name(self) -> Seq<char> {
        match self {
            LevelCompleteMode::Announce => "Announce"@,
            LevelCompleteMode::Announce2 => "Announce2"@,
            LevelCompleteMode::Pause => "Pause"@,
        }
    }

    /// The name of the sub-phase.
    pub fn to_string(&self) -> (name: String)
        ensures
            name@ == self.name(),
    {
        match self {
            LevelCompleteMode::Announce => "Announce".to_string(),
            LevelCompleteMode::Announce2 => "Announce2".to_string(),
            LevelCompleteMode::Pause => "Pause".to_string(),
        }
    }
}

#[derive(Clone, Copy, Debug, PartialEq, Eq, Structural)]
pub struct PrepareLevelState {
    pub mode: PrepareLevelMode,
    pub countdown: u32,
}

#[derive(Clone, Copy, Debug, PartialEq, Eq, Structural)]
pub struct LevelCompleteState {
    pub mode: LevelCompleteMode,
    pub countdown: u32,
}

#[derive(Clone, Copy, Debug, PartialEq, Eq, Structural)]
pub enum WinGameMode {
    Announce,
    Announce2,
    Pause,
}

#[derive(Clone, Copy, Debug, PartialEq, Eq, Structural)]
pub struct WinGameState {
    pub mode: WinGameMode,
    pub countdown: u32,
}

#[derive(Clone, Copy, Debug, PartialEq, Eq, Structural)]
pub enum GameOverMode {
    Announce,
    Announce2,
    Pause,
}

impl GameOverMode {
    /// The name of the sub-phase.
    pub open spec fn name(self) -> Seq<char> {
        match self {
            GameOverMode::Announce => "Announce"@,
            GameOverMode::Announce2 => "Announce2"@,
            GameOverMode::Pause => "Pause"@,
        }
    }

    /// The name of the sub-phase.
    pub fn to_string(&self) -> (name: String)
        ensures
            name@ == self.name(),
    {
        match self {
            GameOverMode::Announce => "Announce".to_string(),
            GameOverMode::Announce2 => "Announce2".to_string(),
            GameOverMode::Pause => "Pause".to_string(),
        }
    }
}

#[derive(Clone, Copy, Debug, PartialEq, Eq, Structural)]
pub struct GameOverState {
    pub mode: GameOverMode,
    pub countdown: u32,
}

pub struct State {
    /// Cleared when the player asks to leave.
    pub running: bool,
    pub game_mode: GameMode,
    /// The mode to enter at the start of the next tick.
    pub next_game_mode: Option<GameMode>,
    pub prepare_level_state: PrepareLevelState,
    pub level_complete_state: LevelCompleteState,
    pub win_game_state: WinGameState,
    pub game_over_state: GameOverState,
    pub expiring_messages: ExpiringMessages,
    pub audio_command_buffer: AudioCommandBuffer,
    pub render_command_buffer: RenderCommandBuffer,
    pub title_inputs: TitleInputs,
    pub playing_inputs: PlayingInputs,
    pub mouse_screen_pos: Vec2,
    /// The current level, counted from 1.
    pub level: u32,
    pub level_change_delay: u32,
    pub physics: PhysicsEngine,
    /// The removals that wait for the end of the tick.
    pub deletion_events: Vec<DeletionEvent>,
    pub levels: LevelTable,
}

impl State {
    /// The state of a session that shows the title, before the first level.
    pub fn new(levels: LevelTable) -> (state: Self)
        ensures
            state.running,
            state.game_mode == GameMode::Title,
            state.next_game_mode is None,
            state.level == 1,
            state.level_change_delay == 0,
            state.levels == levels,
            state.prepare_level_state == (PrepareLevelState {
                mode: PrepareLevelMode::SpawnStuffIn,
                countdown: 0,
            }),
            state.level_complete_state == (LevelCompleteState {
                mode: LevelCompleteMode::Announce,
                countdown: 0,
            }),
            state.win_game_state == (WinGameState { mode: WinGameMode::Announce, countdown: 0 }),
            state.game_over_state == (GameOverState { mode: GameOverMode::Announce, countdown: 0 }),
            state.audio_command_buffer@ =~= Seq::empty(),
            state.render_command_buffer@ =~= Seq::empty(),
            state.deletion_events@ =~= Seq::empty(),
            state.expiring_messages@ =~= Seq::empty(),
            state.title_inputs == (TitleInputs { confirm: false }),
            state.mouse_screen_pos == (Vec2 { x: 0, y: 0 }),
            state.physics.mapping() =~= Map::empty(),
            state.physics.collision_events@ =~= Seq::empty(),
            state.physics.body_requests@ =~= Seq::empty(),
    {
        let expiring_messages: Vec<ExpiringMessage> = Vec::new();
        let audio_command_buffer: Vec<AudioCommand> = Vec::new();
        let render_command_buffer: Vec<RenderCommand> = Vec::new();
        let deletion_events: Vec<DeletionEvent> = Vec::new();
        Self {
            running: true,
            game_mode: GameMode::Title,
            next_game_mode: None,
            prepare_level_state: PrepareLevelState {
                mode: PrepareLevelMode::SpawnStuffIn,
                countdown: 0,
            },
            level_complete_state: LevelCompleteState {
                mode: LevelCompleteMode::Announce,
                countdown: 0,
            },
            win_game_state: WinGameState { mode: WinGameMode::Announce, countdown: 0 },
            game_over_state: GameOverState { mode: GameOverMode::Announce, countdown: 0 },
            expiring_messages,
            audio_command_buffer,
            render_command_buffer,
            title_inputs: TitleInputs::new(),
            playing_inputs: PlayingInputs::new(),
            mouse_screen_pos: Vec2::new(0, 0),
            level: 1,
            level_change_delay: 0,
            physics: PhysicsEngine::new(),
            deletion_events,
            levels,
        }
    }
}

} // verus!

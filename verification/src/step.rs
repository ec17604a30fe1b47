//! One tick of the simulation, by game mode.
//!
//! Every mode but live play counts a sub-phase down and moves on when the
//! count is over. Live play has two halves with the step of the physics
//! world between them: `playing_step` before it and
//! `playing_step_after_physics` after it.

use vstd::prelude::*;
use hecs::World;
use crate::audio_playing::AudioCommand;
use crate::components::{CTransform, EntityId, OwnedBy, Physics, Shape, Vec2};
use crate::entity_archetypes::{
    ball_body, BALL_SIZE, FIELD_HEIGHT, only_requests_differ, spawn_ball,
};
use crate::physics_engine::{bodies_of, collider_parents, BodyHandle, BodyRequest};
use crate::render_commands::drawings;
use crate::state::{
    GameMode, GameOverMode, GameOverState, LevelCompleteMode, LevelCompleteState, PrepareLevelMode,
    PrepareLevelState, State, WinGameMode, WinGameState,
};
use crate::systems::playing::cleanup::{
    bodies_to_remove, entities_to_remove, process_deletion_events, removed_bodies,
};
use crate::systems::playing::input_processing::{inputs_are_processed, process_inputs};
use crate::systems::playing::physics::{
    angles_fixed, outcome_of, respond_to_all, respond_to_collisions, set_ball_to_angle,
};
use crate::systems::playing::rendering::{render, rendering_of};
use crate::systems::playing::state_changing::{
    check_for_level_complete, check_for_level_lost, level_is_complete, level_is_lost,
};
use crate::world::{
    ball_parts, Components, entity_ids, has_paddle, lists_entities, world_entities, world_order,
};

verus! {

/// Ticks for which the number of the level is announced.
pub const ANNOUNCE_LEVEL_DELAY: u32 = 120;

/// Ticks of the pause before the balls appear, and from then to live play.
pub const SHORT_DELAY: u32 = 40;

/// Ticks of each later sub-phase of an announcement.
pub const ANNOUNCE_DELAY: u32 = 80;

/// Balls that a level starts with.
pub const BALLS_PER_LEVEL: usize = 2;

/// The middle of the play field from left to right: 120 pixels.
pub const FIELD_MIDDLE: i32 = 122_880;

/// Where the first ball appears: 120 pixels from the left.
pub const FIRST_BALL_X: i32 = 122_880;

/// Where the balls appear: 128 pixels from the top.
pub const FIRST_BALL_Y: i32 = 131_072;

/// From one ball to the next: 4 pixels to the right.
pub const BALL_PITCH: i32 = 4_096;

/// The speed at which a ball appears: 20 pixels per second, upwards.
pub const LAUNCH_SPEED: i32 = 20_480;

/// What a tick leaves for its caller to do and to know.
pub struct StepReport {
    /// Where to put the pointer, in length units of the play field.
    pub pointer: Option<Vec2>,
    /// The entities that the tick created.
    pub spawned: Vec<EntityId>,
}

/// A count one tick later; a count that is over stays over.
pub open spec fn counted_down(count: u32) -> u32 {
    if count > 0 {
        (count - 1) as u32
    } else {
        0
    }
}

/// The last of the first `n` entities of `order` that is a paddle.
pub open spec fn last_paddle(
    entities: Map<EntityId, Components>,
    order: Seq<EntityId>,
    n: nat,
) -> Option<EntityId>
    decreases n,
{
    if n == 0 {
        None
    } else if entities[order[n - 1]].paddle is Some {
        Some(order[n - 1])
    } else {
        last_paddle(entities, order, (n - 1) as nat)
    }
}

/// What the ball number `i` of a level carries when it appears.
pub open spec fn first_ball(i: int, owner: EntityId) -> Components {
    ball_parts(
        CTransform {
            pos: Vec2 { x: (FIRST_BALL_X + BALL_PITCH * i) as i32, y: FIRST_BALL_Y },
            rot: Vec2 { x: 0, y: 0 },
        },
        Physics { vel: Vec2 { x: 0, y: (-LAUNCH_SPEED) as i32 }, rot_vel: 0 },
        OwnedBy { owner },
        Shape { dims: Vec2 { x: BALL_SIZE, y: BALL_SIZE } },
    )
}

/// The request for the body of the ball number `i` of a level.
pub open spec fn first_ball_request(i: int, ball: EntityId) -> BodyRequest {
    BodyRequest {
        entity: ball,
        descriptor: ball_body(
            Vec2 { x: (FIRST_BALL_X + BALL_PITCH * i) as i32, y: FIRST_BALL_Y },
            Vec2 { x: 0, y: (-LAUNCH_SPEED) as i32 },
        ),
    }
}

/// The last paddle of the world, in the order of the world.
pub fn find_paddle(ecs: &World) -> (paddle: Option<EntityId>)
    ensures
        paddle == last_paddle(world_entities(*ecs), world_order(*ecs), world_order(*ecs).len()),
{
    let ids = entity_ids(ecs);
    let mut paddle: Option<EntityId> = None;
    let mut i: usize = 0;
    while i < ids.len()
        invariant
            i <= ids.len(),
            ids@ == world_order(*ecs),
            lists_entities(ids@, world_entities(*ecs)),
            paddle == last_paddle(world_entities(*ecs), ids@, i as nat),
        decreases ids.len() - i,
    {
        assert(ids@.contains(ids[i as int]));
        if has_paddle(ecs, ids[i]) {
            paddle = Some(ids[i]);
        }
        i += 1;
    }
    paddle
}

/// The title waits for the player: a tick changes nothing.
pub fn title_step(state: &mut State, ecs: &mut World)
    ensures
        *final(state) == *old(state),
        *final(ecs) == *old(ecs),
{
}

/// The preparation of a level after one more tick, but for what the tick
/// draws, sounds and creates: the count goes down, and where it is over the
/// next sub-phase begins.
///
/// - `SpawnStuffIn` leads to `AnnounceLevel`, which shows the number of the level.
/// - `AnnounceLevel` leads to `ShortPause`.
/// - `ShortPause` leads to `SpawnBall`.
/// - `SpawnBall` ends with the request for live play.
pub open spec fn prepared(before: State) -> State {
    let count = counted_down(before.prepare_level_state.countdown);
    let waiting = State {
        prepare_level_state: PrepareLevelState { countdown: count, ..before.prepare_level_state },
        ..before
    };
    if count > 0 {
        waiting
    } else {
        match before.prepare_level_state.mode {
            PrepareLevelMode::SpawnStuffIn => State {
                prepare_level_state: PrepareLevelState {
                    mode: PrepareLevelMode::AnnounceLevel,
                    countdown: ANNOUNCE_LEVEL_DELAY,
                },
                ..before
            },
            PrepareLevelMode::AnnounceLevel => State {
                prepare_level_state: PrepareLevelState {
                    mode: PrepareLevelMode::ShortPause,
                    countdown: SHORT_DELAY,
                },
                ..before
            },
            PrepareLevelMode::ShortPause => State {
                prepare_level_state: PrepareLevelState {
                    mode: PrepareLevelMode::SpawnBall,
                    countdown: SHORT_DELAY,
                },
                ..before
            },
            PrepareLevelMode::SpawnBall => State {
                next_game_mode: Some(GameMode::Playing),
                ..waiting
            },
        }
    }
}

/// Whether this tick of the preparation ends the sub-phase `mode`.
pub open spec fn ends_sub_phase(before: State, mode: PrepareLevelMode) -> bool {
    before.prepare_level_state.mode == mode && counted_down(before.prepare_level_state.countdown)
        == 0
}

/// A tick of the preparation of a level leads from `before` and `world_before`
/// to `after` and `world_after`, with the report `report`: the world as it
/// was is drawn, the sub-phase moves on as `prepared` says, and the end of
/// `ShortPause` makes the balls of the level.
pub open spec fn preparation_ticked(
    before: State,
    after: State,
    world_before: World,
    world_after: World,
    report: StepReport,
) -> bool {
    let entities = world_entities(world_before);
    let order = world_order(world_before);
    &&& drawings(after.render_command_buffer@) == drawings(before.render_command_buffer@)
        + rendering_of(entities, order, before.level)
    &&& after.audio_command_buffer@ == if ends_sub_phase(before, PrepareLevelMode::SpawnStuffIn) {
        before.audio_command_buffer@.push(AudioCommand::LevelStart)
    } else {
        before.audio_command_buffer@
    }
    &&& after == (State {
        render_command_buffer: after.render_command_buffer,
        audio_command_buffer: after.audio_command_buffer,
        physics: after.physics,
        ..prepared(before)
    })
    &&& report.pointer == if ends_sub_phase(before, PrepareLevelMode::SpawnBall) {
        Some(Vec2 { x: FIELD_MIDDLE, y: FIELD_HEIGHT })
    } else {
        None
    }
    &&& only_requests_differ(State { physics: after.physics, ..before }, before)
    &&& match last_paddle(entities, order, order.len()) {
        Some(paddle) if ends_sub_phase(before, PrepareLevelMode::ShortPause) => {
            &&& report.spawned.len() == BALLS_PER_LEVEL
            &&& report.spawned[0] != report.spawned[1]
            &&& !entities.contains_key(report.spawned[0])
            &&& !entities.contains_key(report.spawned[1])
            &&& world_entities(world_after) == entities.insert(
                report.spawned[0],
                first_ball(0, paddle),
            ).insert(report.spawned[1], first_ball(1, paddle))
            &&& after.physics.body_requests@ == before.physics.body_requests@.push(
                first_ball_request(0, report.spawned[0]),
            ).push(first_ball_request(1, report.spawned[1]))
        },
        _ => {
            &&& report.spawned@ =~= Seq::empty()
            &&& world_entities(world_after) == entities
            &&& after.physics == before.physics
        },
    }
}

/// One tick of the preparation of a level: draws the world, counts the
/// sub-phase down and moves on when the count is over. At the end of
/// `ShortPause` the balls of the level appear above the paddle, owned by
/// the last paddle of the world; without a paddle no ball appears. At the
/// end of `SpawnBall` the pointer is asked to the middle of the lower edge of
/// the play field.
pub fn prepare_level_step(state: &mut State, ecs: &mut World) -> (report: StepReport)
    ensures
        preparation_ticked(*old(state), *final(state), *old(ecs), *final(ecs), report),
{
    if state.prepare_level_state.countdown > 0 {
        state.prepare_level_state.countdown -= 1;
    }
    render(ecs, state);
    let mut report = StepReport { pointer: None, spawned: Vec::new() };
    if state.prepare_level_state.countdown > 0 {
        return report;
    }
    match state.prepare_level_state.mode {
        PrepareLevelMode::SpawnStuffIn => {
            state.prepare_level_state.mode = PrepareLevelMode::AnnounceLevel;
            state.prepare_level_state.countdown = ANNOUNCE_LEVEL_DELAY;
            state.audio_command_buffer.push(AudioCommand::LevelStart);
        },
        PrepareLevelMode::AnnounceLevel => {
            state.prepare_level_state.mode = PrepareLevelMode::ShortPause;
            state.prepare_level_state.countdown = SHORT_DELAY;
        },
        PrepareLevelMode::ShortPause => {
            state.prepare_level_state.mode = PrepareLevelMode::SpawnBall;
            state.prepare_level_state.countdown = SHORT_DELAY;
            match find_paddle(ecs) {
                Some(paddle) => {
                    let vel = Vec2 { x: 0, y: -LAUNCH_SPEED };
                    let first = spawn_ball(
                        ecs,
                        state,
                        Vec2 { x: FIRST_BALL_X, y: FIRST_BALL_Y },
                        vel,
                        paddle,
                    );
                    let second = spawn_ball(
                        ecs,
                        state,
                        Vec2 { x: FIRST_BALL_X + BALL_PITCH, y: FIRST_BALL_Y },
                        vel,
                        paddle,
                    );
                    report.spawned.push(first);
                    report.spawned.push(second);
                },
                None => {},
            }
        },
        PrepareLevelMode::SpawnBall => {
            report.pointer = Some(Vec2 { x: FIELD_MIDDLE, y: FIELD_HEIGHT });
            state.next_game_mode = Some(GameMode::Playing);
        },
    }
    report
}

/// `before` with the delay between changes of level one tick later.
pub open spec fn delay_counted(before: State) -> State {
    State { level_change_delay: counted_down(before.level_change_delay), ..before }
}

/// The first half of a tick of live play leads from `before` and
/// `world_before` to `after` and `world_after`: the delay between changes of
/// level is counted down, the intents of the player are carried out, with
/// `blocks` as the blocks of a new level, and then the flight angle of every
/// ball is fixed.
pub open spec fn first_half_is_played(
    before: State,
    after: State,
    world_before: Map<EntityId, Components>,
    world_after: Map<EntityId, Components>,
    blocks: Seq<EntityId>,
) -> bool {
    exists|moved: Map<EntityId, Components>|
        {
            &&& #[trigger] inputs_are_processed(
                delay_counted(before),
                after,
                world_before,
                moved,
                blocks,
            )
            &&& world_after == angles_fixed(moved, after.physics.mapping())
        }
}

/// The first half of a tick of live play, before the step of the physics
/// world: counts the delay between changes of level down, carries out the
/// intents of the player, and fixes the flight angle of the balls. The result
/// names the blocks that a change of level created.
pub fn playing_step(state: &mut State, ecs: &mut World) -> (blocks: Vec<EntityId>)
    ensures
        first_half_is_played(
            *old(state),
            *final(state),
            world_entities(*old(ecs)),
            world_entities(*final(ecs)),
            blocks@,
        ),
{
    if state.level_change_delay > 0 {
        state.level_change_delay -= 1;
    }
    let blocks = process_inputs(ecs, state);
    let ghost moved = world_entities(*ecs);
    set_ball_to_angle(ecs, state);
    assert(inputs_are_processed(
        delay_counted(*old(state)),
        *state,
        world_entities(*old(ecs)),
        moved,
        blocks@,
    ));
    blocks
}

/// The mode that live play asks for when it leaves `entities` behind: the
/// preparation of the level where no ball is left, else the completion of the
/// level where no block that hits can destroy is left, else what was asked
/// for before.
pub open spec fn mode_after_play(
    entities: Map<EntityId, Components>,
    asked: Option<GameMode>,
) -> Option<GameMode> {
    if level_is_lost(entities) {
        Some(GameMode::PrepareLevel)
    } else if level_is_complete(entities) {
        Some(GameMode::LevelComplete)
    } else {
        asked
    }
}

/// Where no block is left but strong ones, and a ball is still in play, live
/// play asks for the completion of the level, however many strong blocks
/// there are and whatever was asked for before.
pub proof fn cleared_level_is_completed(
    entities: Map<EntityId, Components>,
    asked: Option<GameMode>,
    ball: EntityId,
)
    requires
        forall|e: EntityId|
            entities.contains_key(e) && (#[trigger] entities[e]).block is Some
                ==> entities[e].strong_block,
        entities.contains_key(ball) && entities[ball].ball,
    ensures
        level_is_complete(entities),
        mode_after_play(entities, asked) == Some(GameMode::LevelComplete),
{
}

/// Where no ball is left, live play asks for another mode than itself: the
/// preparation of the level, whatever was asked for before.
pub proof fn lost_level_is_left(entities: Map<EntityId, Components>, asked: Option<GameMode>)
    requires
        forall|e: EntityId| entities.contains_key(e) ==> !(#[trigger] entities[e]).ball,
    ensures
        level_is_lost(entities),
        mode_after_play(entities, asked) == Some(GameMode::PrepareLevel),
        mode_after_play(entities, asked) != Some(GameMode::Playing),
{
}

/// The second half of a tick of live play, after the step of the physics
/// world: responds to the collisions of the step, carries out the removals
/// they ask for, checks whether the level is cleared or lost, and draws the
/// world. The result lists the bodies that left the physics world.
pub fn playing_step_after_physics(state: &mut State, ecs: &mut World) -> (removed: Vec<BodyHandle>)
    ensures
        ({
            let out = respond_to_all(
                outcome_of(*old(ecs), *old(state)),
                old(state).physics.mapping(),
                collider_parents(old(state).physics.collider_set),
                old(state).physics.collision_events@,
            );
            let left = out.entities.remove_keys(entities_to_remove(out.deletions));
            &&& world_entities(*final(ecs)) == left
            &&& final(state).physics.mapping() == old(state).physics.mapping().remove_keys(
                bodies_to_remove(out.deletions),
            )
            &&& final(state).physics.bodies() == old(state).physics.bodies().difference(
                bodies_of(old(state).physics.mapping(), bodies_to_remove(out.deletions)),
            )
            &&& removed@ == removed_bodies(old(state).physics.mapping(), out.deletions)
            &&& removed@.no_duplicates()
            &&& final(state).deletion_events@ =~= Seq::empty()
            &&& final(state).audio_command_buffer@ == if level_is_complete(left) {
                out.audio.push(AudioCommand::LevelWin)
            } else {
                out.audio
            }
            &&& final(state).next_game_mode == mode_after_play(left, old(state).next_game_mode)
            &&& drawings(final(state).render_command_buffer@) == drawings(
                old(state).render_command_buffer@,
            ) + rendering_of(left, world_order(*final(ecs)), old(state).level)
        }),
        final(state).physics.collision_events == old(state).physics.collision_events,
        final(state).physics.body_requests == old(state).physics.body_requests,
        *final(state) == (State {
            physics: final(state).physics,
            deletion_events: final(state).deletion_events,
            audio_command_buffer: final(state).audio_command_buffer,
            render_command_buffer: final(state).render_command_buffer,
            next_game_mode: final(state).next_game_mode,
            ..*old(state)
        }),
{
    respond_to_collisions(ecs, state);
    let removed = process_deletion_events(ecs, state);
    check_for_level_complete(ecs, state);
    check_for_level_lost(ecs, state);
    render(ecs, state);
    removed
}

/// A tick of an announcement leads from `before` to `after`: the world is
/// drawn, and everything else is as in `expected`.
pub open spec fn announcement_ticked(before: State, after: State, expected: State, world: World) -> bool {
    &&& drawings(after.render_command_buffer@) == drawings(before.render_command_buffer@)
        + rendering_of(world_entities(world), world_order(world), before.level)
    &&& after == (State { render_command_buffer: after.render_command_buffer, ..expected })
}

/// The completion of a level after one more tick: two announcements and a
/// pause, then the next level; after the last level, the end of a won game.
pub open spec fn completed(before: State) -> State {
    let count = counted_down(before.level_complete_state.countdown);
    if count > 0 {
        State {
            level_complete_state: LevelCompleteState {
                countdown: count,
                ..before.level_complete_state
            },
            ..before
        }
    } else {
        match before.level_complete_state.mode {
            LevelCompleteMode::Announce => State {
                level_complete_state: LevelCompleteState {
                    mode: LevelCompleteMode::Announce2,
                    countdown: ANNOUNCE_DELAY,
                },
                ..before
            },
            LevelCompleteMode::Announce2 => State {
                level_complete_state: LevelCompleteState {
                    mode: LevelCompleteMode::Pause,
                    countdown: ANNOUNCE_DELAY,
                },
                ..before
            },
            LevelCompleteMode::Pause => {
                let level = if before.level <= before.levels.last_level() {
                    (before.level + 1) as u32
                } else {
                    before.level
                };
                State {
                    level_complete_state: LevelCompleteState {
                        countdown: count,
                        ..before.level_complete_state
                    },
                    level,
                    next_game_mode: if level > before.levels.last_level() {
                        Some(GameMode::WinGame)
                    } else {
                        Some(GameMode::PrepareLevel)
                    },
                    ..before
                }
            },
        }
    }
}

/// One tick of the completion of a level: draws the world, counts the
/// sub-phase down and moves on when the count is over.
pub fn level_complete_step(state: &mut State, ecs: &mut World)
    ensures
        *final(ecs) == *old(ecs),
        announcement_ticked(*old(state), *final(state), completed(*old(state)), *old(ecs)),
{
    if state.level_complete_state.countdown > 0 {
        state.level_complete_state.countdown -= 1;
    }
    render(ecs, state);
    if state.level_complete_state.countdown == 0 {
        match state.level_complete_state.mode {
            LevelCompleteMode::Announce => {
                state.level_complete_state.mode = LevelCompleteMode::Announce2;
                state.level_complete_state.countdown = ANNOUNCE_DELAY;
            },
            LevelCompleteMode::Announce2 => {
                state.level_complete_state.mode = LevelCompleteMode::Pause;
                state.level_complete_state.countdown = ANNOUNCE_DELAY;
            },
            LevelCompleteMode::Pause => {
                let last = state.levels.level_count();
                if state.level as usize <= last {
                    state.level += 1;
                }
                if state.level as usize > last {
                    state.next_game_mode = Some(GameMode::WinGame);
                } else {
                    state.next_game_mode = Some(GameMode::PrepareLevel);
                }
            },
        }
    }
}

/// The end of a won game after one more tick: two announcements and a
/// pause, then the title.
pub open spec fn won(before: State) -> State {
    let count = counted_down(before.win_game_state.countdown);
    if count > 0 {
        State {
            win_game_state: WinGameState { countdown: count, ..before.win_game_state },
            ..before
        }
    } else {
        match before.win_game_state.mode {
            WinGameMode::Announce => State {
                win_game_state: WinGameState {
                    mode: WinGameMode::Announce2,
                    countdown: ANNOUNCE_DELAY,
                },
                ..before
            },
            WinGameMode::Announce2 => State {
                win_game_state: WinGameState { mode: WinGameMode::Pause, countdown: ANNOUNCE_DELAY },
                ..before
            },
            WinGameMode::Pause => State {
                win_game_state: WinGameState { countdown: count, ..before.win_game_state },
                next_game_mode: Some(GameMode::Title),
                ..before
            },
        }
    }
}

/// One tick of the end of a won game: draws the world, counts the sub-phase
/// down and moves on when the count is over.
pub fn win_game_step(state: &mut State, ecs: &mut World)
    ensures
        *final(ecs) == *old(ecs),
        announcement_ticked(*old(state), *final(state), won(*old(state)), *old(ecs)),
{
    if state.win_game_state.countdown > 0 {
        state.win_game_state.countdown -= 1;
    }
    render(ecs, state);
    if state.win_game_state.countdown == 0 {
        match state.win_game_state.mode {
            WinGameMode::Announce => {
                state.win_game_state.mode = WinGameMode::Announce2;
                state.win_game_state.countdown = ANNOUNCE_DELAY;
            },
            WinGameMode::Announce2 => {
                state.win_game_state.mode = WinGameMode::Pause;
                state.win_game_state.countdown = ANNOUNCE_DELAY;
            },
            WinGameMode::Pause => {
                state.next_game_mode = Some(GameMode::Title);
            },
        }
    }
}

/// The end of a lost game after one more tick: two announcements and a
/// pause, then the title.
pub open spec fn lost(before: State) -> State {
    let count = counted_down(before.game_over_state.countdown);
    if count > 0 {
        State {
            game_over_state: GameOverState { countdown: count, ..before.game_over_state },
            ..before
        }
    } else {
        match before.game_over_state.mode {
            GameOverMode::Announce => State {
                game_over_state: GameOverState {
                    mode: GameOverMode::Announce2,
                    countdown: ANNOUNCE_DELAY,
                },
                ..before
            },
            GameOverMode::Announce2 => State {
                game_over_state: GameOverState {
                    mode: GameOverMode::Pause,
                    countdown: ANNOUNCE_DELAY,
                },
                ..before
            },
            GameOverMode::Pause => State {
                game_over_state: GameOverState { countdown: count, ..before.game_over_state },
                next_game_mode: Some(GameMode::Title),
                ..before
            },
        }
    }
}

/// One tick of the end of a lost game: draws the world, counts the sub-phase
/// down and moves on when the count is over.
pub fn game_over_step(state: &mut State, ecs: &mut World)
    ensures
        *final(ecs) == *old(ecs),
        announcement_ticked(*old(state), *final(state), lost(*old(state)), *old(ecs)),
{
    if state.game_over_state.countdown > 0 {
        state.game_over_state.countdown -= 1;
    }
    render(ecs, state);
    if state.game_over_state.countdown == 0 {
        match state.game_over_state.mode {
            GameOverMode::Announce => {
                state.game_over_state.mode = GameOverMode::Announce2;
                state.game_over_state.countdown = ANNOUNCE_DELAY;
            },
            GameOverMode::Announce2 => {
                state.game_over_state.mode = GameOverMode::Pause;
                state.game_over_state.countdown = ANNOUNCE_DELAY;
            },
            GameOverMode::Pause => {
                state.next_game_mode = Some(GameMode::Title);
            },
        }
    }
}

/// One tick in the current mode. In live play this is the first half of the
/// tick: the physics world is stepped next, and
/// `playing_step_after_physics` ends the tick. The mode itself never changes
/// within a tick.
pub fn step(ecs: &mut World, state: &mut State) -> (report: StepReport)
    ensures
        final(state).game_mode == old(state).game_mode,
        final(state).levels == old(state).levels,
        match old(state).game_mode {
            GameMode::Title => *final(state) == *old(state) && *final(ecs) == *old(ecs),
            GameMode::PrepareLevel => preparation_ticked(
                *old(state),
                *final(state),
                *old(ecs),
                *final(ecs),
                report,
            ),
            GameMode::Playing => first_half_is_played(
                *old(state),
                *final(state),
                world_entities(*old(ecs)),
                world_entities(*final(ecs)),
                report.spawned@,
            ),
            GameMode::LevelComplete => *final(ecs) == *old(ecs) && announcement_ticked(
                *old(state),
                *final(state),
                completed(*old(state)),
                *old(ecs),
            ),
            GameMode::WinGame => *final(ecs) == *old(ecs) && announcement_ticked(
                *old(state),
                *final(state),
                won(*old(state)),
                *old(ecs),
            ),
            GameMode::GameOver => *final(ecs) == *old(ecs) && announcement_ticked(
                *old(state),
                *final(state),
                lost(*old(state)),
                *old(ecs),
            ),
        },
        old(state).game_mode != GameMode::PrepareLevel ==> report.pointer is None,
        old(state).game_mode != GameMode::PrepareLevel && old(state).game_mode
            != GameMode::Playing ==> report.spawned@ =~= Seq::empty(),
{
    match state.game_mode {
        GameMode::Title => {
            title_step(state, ecs);
            StepReport { pointer: None, spawned: Vec::new() }
        },
        GameMode::PrepareLevel => prepare_level_step(state, ecs),
        GameMode::Playing => {
            let spawned = playing_step(state, ecs);
            StepReport { pointer: None, spawned }
        },
        GameMode::LevelComplete => {
            level_complete_step(state, ecs);
            StepReport { pointer: None, spawned: Vec::new() }
        },
        GameMode::WinGame => {
            win_game_step(state, ecs);
            StepReport { pointer: None, spawned: Vec::new() }
        },
        GameMode::GameOver => {
            game_over_step(state, ecs);
            StepReport { pointer: None, spawned: Vec::new() }
        },
    }
}

} // verus!

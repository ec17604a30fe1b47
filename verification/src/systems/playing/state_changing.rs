//! The checks that end live play: the level is cleared, or the last ball is lost.
//!
//! A lost ball sends the player back to the preparation of the same level;
//! the run does not end with it.

use vstd::prelude::*;
use hecs::World;
use crate::audio_playing::AudioCommand;
use crate::components::EntityId;
use crate::state::{GameMode, State};
use crate::world::{
    Components, entity_ids, has_ball, has_block, has_strong_block, lists_entities, world_entities,
};

verus! {

/// An entity that carries `c` is a block that hits can destroy.
pub open spec fn is_ordinary_block(c: Components) -> bool {
    c.block is Some && !c.strong_block
}

/// No block that hits can destroy is left.
pub open spec fn level_is_complete(entities: Map<EntityId, Components>) -> bool {
    forall|e: EntityId| entities.contains_key(e) ==> !is_ordinary_block(#[trigger] entities[e])
}

/// No ball is left.
pub open spec fn level_is_lost(entities: Map<EntityId, Components>) -> bool {
    forall|e: EntityId| entities.contains_key(e) ==> !(#[trigger] entities[e]).ball
}

/// Whether no block that hits can destroy is left.
pub fn no_ordinary_block(ecs: &World) -> (none: bool)
    ensures
        none == level_is_complete(world_entities(*ecs)),
{
    let ids = entity_ids(ecs);
    let mut i: usize = 0;
    while i < ids.len()
        invariant
            i <= ids.len(),
            lists_entities(ids@, world_entities(*ecs)),
            forall|j: int| 0 <= j < i ==> !is_ordinary_block(world_entities(*ecs)[#[trigger] ids@[j]]),
        decreases ids.len() - i,
    {
        let entity = ids[i];
        assert(ids@.contains(entity));
        if has_block(ecs, entity) && !has_strong_block(ecs, entity) {
            return false;
        }
        i += 1;
    }
    proof {
        assert forall|e: EntityId| world_entities(*ecs).contains_key(e) implies !is_ordinary_block(
            #[trigger] world_entities(*ecs)[e],
        ) by {
            if is_ordinary_block(world_entities(*ecs)[e]) {
                assert(ids@.contains(e));
                let j = choose|j: int| 0 <= j < ids@.len() && ids@[j] == e;
                assert(!is_ordinary_block(world_entities(*ecs)[ids@[j]]));
            }
        }
    }
    true
}

/// Whether no ball is left.
pub fn no_ball(ecs: &World) -> (none: bool)
    ensures
        none == level_is_lost(world_entities(*ecs)),
{
    let ids = entity_ids(ecs);
    let mut i: usize = 0;
    while i < ids.len()
        invariant
            i <= ids.len(),
            lists_entities(ids@, world_entities(*ecs)),
            forall|j: int| 0 <= j < i ==> !world_entities(*ecs)[#[trigger] ids@[j]].ball,
        decreases ids.len() - i,
    {
        let entity = ids[i];
        assert(ids@.contains(entity));
        if has_ball(ecs, entity) {
            return false;
        }
        i += 1;
    }
    proof {
        assert forall|e: EntityId| world_entities(*ecs).contains_key(e) implies !(
        #[trigger] world_entities(*ecs)[e]).ball by {
            if world_entities(*ecs)[e].ball {
                assert(ids@.contains(e));
                let j = choose|j: int| 0 <= j < ids@.len() && ids@[j] == e;
                assert(!world_entities(*ecs)[ids@[j]].ball);
            }
        }
    }
    true
}

/// Where no block that hits can destroy is left, asks for the mode
/// `LevelComplete` and raises the cue of a won level. Strong blocks do not
/// keep a level from being complete.
pub fn check_for_level_complete(ecs: &World, state: &mut State)
    ensures
        level_is_complete(world_entities(*ecs)) ==> *final(state) == (State {
            next_game_mode: Some(GameMode::LevelComplete),
            audio_command_buffer: final(state).audio_command_buffer,
            ..*old(state)
        }) && final(state).audio_command_buffer@ == old(state).audio_command_buffer@.push(
            AudioCommand::LevelWin,
        ),
        !level_is_complete(world_entities(*ecs)) ==> *final(state) == *old(state),
{
    if no_ordinary_block(ecs) {
        state.next_game_mode = Some(GameMode::LevelComplete);
        state.audio_command_buffer.push(AudioCommand::LevelWin);
    }
}

/// Where no ball is left, asks for the mode `PrepareLevel`: the level is
/// set up anew and played again.
pub fn check_for_level_lost(ecs: &World, state: &mut State)
    ensures
        level_is_lost(world_entities(*ecs)) ==> *final(state) == (State {
            next_game_mode: Some(GameMode::PrepareLevel),
            ..*old(state)
        }),
        !level_is_lost(world_entities(*ecs)) ==> *final(state) == *old(state),
{
    if no_ball(ecs) {
        state.next_game_mode = Some(GameMode::PrepareLevel);
    }
}

} // verus!

//! From the intents of the player to the world: the paddle follows the
//! pointer, and a change of level is carried out.

use vstd::prelude::*;
use hecs::World;
use crate::components::{clamp_i32, clamp_to_i32, CTransform, EntityId, halved, Vec2};
use crate::game_mode_transitions::{blocks_are_replaced, spawn_level};
use crate::level_data::plan_of;
use crate::state::{LEVEL_CHANGE_DELAY_DEFAULT, State};
use crate::world::{
    Components, entity_ids, has_paddle, lists_entities, set_transform, shape_of, take_one_more,
    transform_of, world_entities,
};

verus! {

/// An entity that carries `c` follows the pointer: it is a paddle with a
/// position and extents.
pub open spec fn follows_pointer(c: Components) -> bool {
    c.paddle is Some && c.transform is Some && c.shape is Some
}

/// `c` with its centre at the horizontal position `pointer_x`.
pub open spec fn placed(c: Components, pointer_x: i32) -> Components {
    let transform = c.transform->0;
    Components {
        transform: Some(
            CTransform {
                pos: Vec2 {
                    x: clamp_i32(pointer_x - halved(c.shape->0.dims.x as int)),
                    y: transform.pos.y,
                },
                rot: transform.rot,
            },
        ),
        ..c
    }
}

/// The entities after every paddle was centred at `pointer_x`.
pub open spec fn paddles_placed(entities: Map<EntityId, Components>, pointer_x: i32) -> Map<
    EntityId,
    Components,
> {
    Map::new(
        |e: EntityId| entities.contains_key(e),
        |e: EntityId|
            if follows_pointer(entities[e]) {
                placed(entities[e], pointer_x)
            } else {
                entities[e]
            },
    )
}

/// Centres every paddle at the horizontal position `pointer_x`.
pub fn place_paddles(ecs: &mut World, pointer_x: i32)
    ensures
        world_entities(*final(ecs)) == paddles_placed(world_entities(*old(ecs)), pointer_x),
{
    let ids = entity_ids(ecs);
    let ghost before = world_entities(*ecs);
    let mut i: usize = 0;
    while i < ids.len()
        invariant
            i <= ids.len(),
            before == world_entities(*old(ecs)),
            lists_entities(ids@, before),
            world_entities(*ecs) =~= Map::new(
                |e: EntityId| before.contains_key(e),
                |e: EntityId|
                    if ids@.take(i as int).contains(e) && follows_pointer(before[e]) {
                        placed(before[e], pointer_x)
                    } else {
                        before[e]
                    },
            ),
        decreases ids.len() - i,
    {
        let entity = ids[i];
        proof {
            take_one_more(ids@, i as int);
            assert(ids@.contains(entity));
        }
        if has_paddle(ecs, entity) {
            match (transform_of(ecs, entity), shape_of(ecs, entity)) {
                (Some(transform), Some(shape)) => {
                    let x = clamp_to_i32(pointer_x as i64 - (shape.dims.x / 2) as i64);
                    let moved = CTransform {
                        pos: Vec2 { x, y: transform.pos.y },
                        rot: transform.rot,
                    };
                    set_transform(ecs, entity, moved);
                },
                _ => {},
            }
        }
        i += 1;
    }
    proof {
        assert(ids@.take(ids.len() as int) =~= ids@);
        assert(world_entities(*ecs) =~= paddles_placed(before, pointer_x));
    }
}

/// The level that the player changes to, if the player asks for a change
/// and the delay since the last change has passed. The level before the
/// first is not asked for; a level after the last one counts as the one
/// after the last.
pub open spec fn level_change(state: State) -> Option<u32> {
    if state.level_change_delay > 0 {
        None
    } else if state.playing_inputs.next_level {
        if state.level <= state.levels.last_level() {
            Some((state.level + 1) as u32)
        } else {
            Some(state.level)
        }
    } else if state.playing_inputs.previous_level && state.level > 1 {
        Some((state.level - 1) as u32)
    } else {
        None
    }
}

/// The paddles of `world_before` are centred at the pointer. Where the player
/// changes the level, the blocks are then replaced by those of the new level,
/// as the entities `blocks`; otherwise nothing else changes.
pub open spec fn inputs_are_processed(
    before: State,
    after: State,
    world_before: Map<EntityId, Components>,
    world_after: Map<EntityId, Components>,
    blocks: Seq<EntityId>,
) -> bool {
    let placed = paddles_placed(world_before, before.mouse_screen_pos.x);
    match level_change(before) {
        None => after == before && blocks =~= Seq::empty() && world_after == placed,
        Some(level) => {
            &&& after == (State {
                level,
                level_change_delay: LEVEL_CHANGE_DELAY_DEFAULT,
                physics: after.physics,
                ..before
            })
            &&& blocks_are_replaced(
                before.physics,
                after.physics,
                placed,
                world_after,
                plan_of(before.levels, level),
                blocks,
            )
        },
    }
}

/// Centres the paddle at the pointer and carries out a change of level that
/// the player asks for: the blocks of the world are replaced by those of the
/// new level, and further changes wait for `LEVEL_CHANGE_DELAY_DEFAULT`
/// ticks. The result names the blocks that a change of level created.
pub fn process_inputs(ecs: &mut World, state: &mut State) -> (blocks: Vec<EntityId>)
    ensures
        inputs_are_processed(
            *old(state),
            *final(state),
            world_entities(*old(ecs)),
            world_entities(*final(ecs)),
            blocks@,
        ),
{
    place_paddles(ecs, state.mouse_screen_pos.x);
    if state.level_change_delay > 0 {
        return Vec::new();
    }
    if state.playing_inputs.next_level {
        if state.level as usize <= state.levels.level_count() {
            state.level += 1;
        }
    } else if state.playing_inputs.previous_level && state.level > 1 {
        state.level -= 1;
    } else {
        return Vec::new();
    }
    state.level_change_delay = LEVEL_CHANGE_DELAY_DEFAULT;
    let level = state.level;
    spawn_level(ecs, state, level)
}

} // verus!

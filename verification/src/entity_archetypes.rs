//! The kinds of entity that a level is made of, and how each is created.
//!
//! Creating an entity puts it into the world and asks the physics adapter
//! for its body.

use vstd::prelude::*;
use hecs::World;
use crate::components::{
    Block, Color, CTransform, EntityId, Health, OwnedBy, Paddle, Physics, Shape, Vec2, Wall,
};
use crate::physics_engine::{BodyDescriptor, BodyKind, BodyRequest, PhysicsEngine};
use crate::state::State;
use crate::world::{
    ball_eater_parts, ball_parts, block_parts, paddle_parts, spawn_ball_eater_entity,
    spawn_ball_entity, spawn_block_entity, spawn_paddle_entity, spawn_strong_block_entity,
    spawn_wall_entity, strong_block_parts, wall_parts, world_entities, Components,
};

verus! {

/// Width of the play field: 240 pixels.
pub const FIELD_WIDTH: i32 = 245_760;

/// Height of the play field: 160 pixels.
pub const FIELD_HEIGHT: i32 = 163_840;

/// Thickness of a wall: 20 pixels.
pub const WALL_THICKNESS: i32 = 20_480;

/// How far a wall reaches into the play field: 1 pixel.
pub const WALL_OVERLAP: i32 = 1_024;

/// Width and height of a ball: 4 pixels.
pub const BALL_SIZE: i32 = 4_096;

/// Restitution of a perfectly elastic bounce, in thousandths.
pub const ELASTIC: u32 = 1_000;

/// Mass of a ball, in millionths.
pub const BALL_MASS: u32 = 100;

/// `state` differs from `before` in nothing but the bodies that the physics
/// adapter is asked for.
pub open spec fn only_requests_differ(state: State, before: State) -> bool {
    &&& state == (State { physics: state.physics, ..before })
    &&& state.physics == (PhysicsEngine {
        body_requests: state.physics.body_requests,
        ..before.physics
    })
}

/// The body of something that never moves: a wall or a block with its upper
/// left corner at `pos`.
pub open spec fn fixed_body(pos: Vec2, dims: Vec2) -> BodyDescriptor {
    BodyDescriptor {
        kind: BodyKind::Fixed,
        translation: pos.centre_of(dims),
        velocity: Vec2 { x: 0, y: 0 },
        half_extents: dims.half(),
        restitution: ELASTIC,
        friction: Some(0),
        mass: None,
        free_flight: false,
        ccd_enabled: false,
        can_sleep: false,
        collision_events: false,
    }
}

/// The body of a ball at `pos` that starts with the velocity `vel`. It
/// reports its contacts and is checked for collisions continuously.
pub open spec fn ball_body(pos: Vec2, vel: Vec2) -> BodyDescriptor {
    BodyDescriptor {
        kind: BodyKind::Dynamic,
        translation: pos,
        velocity: vel,
        half_extents: (Vec2 { x: BALL_SIZE, y: BALL_SIZE }).half(),
        restitution: ELASTIC,
        friction: Some(0),
        mass: Some(BALL_MASS),
        free_flight: true,
        ccd_enabled: true,
        can_sleep: false,
        collision_events: true,
    }
}

/// The body of a paddle with its upper left corner at `pos`: the game places
/// it in each step.
pub open spec fn paddle_body(pos: Vec2, dims: Vec2) -> BodyDescriptor {
    BodyDescriptor {
        kind: BodyKind::KinematicPositionBased,
        translation: pos.centre_of(dims),
        velocity: Vec2 { x: 0, y: 0 },
        half_extents: dims.half(),
        restitution: ELASTIC,
        friction: None,
        mass: None,
        free_flight: false,
        ccd_enabled: false,
        can_sleep: false,
        collision_events: false,
    }
}

fn make_fixed_body(pos: Vec2, dims: Vec2) -> (body: BodyDescriptor)
    ensures
        body == fixed_body(pos, dims),
{
    BodyDescriptor {
        kind: BodyKind::Fixed,
        translation: pos.centre(dims),
        velocity: Vec2 { x: 0, y: 0 },
        half_extents: dims.halve(),
        restitution: ELASTIC,
        friction: Some(0),
        mass: None,
        free_flight: false,
        ccd_enabled: false,
        can_sleep: false,
        collision_events: false,
    }
}

/// The places and extents of the four walls: above, below, left and right of
/// the play field, each reaching one pixel into it.
pub open spec fn wall_places() -> Seq<(Vec2, Vec2)> {
    seq![
        (
            Vec2 { x: 0, y: (WALL_OVERLAP - WALL_THICKNESS) as i32 },
            Vec2 { x: FIELD_WIDTH, y: WALL_THICKNESS },
        ),
        (
            Vec2 { x: 0, y: (FIELD_HEIGHT - WALL_OVERLAP) as i32 },
            Vec2 { x: FIELD_WIDTH, y: WALL_THICKNESS },
        ),
        (
            Vec2 { x: (WALL_OVERLAP - WALL_THICKNESS) as i32, y: 0 },
            Vec2 { x: WALL_THICKNESS, y: FIELD_HEIGHT },
        ),
        (
            Vec2 { x: (FIELD_WIDTH - WALL_OVERLAP) as i32, y: 0 },
            Vec2 { x: WALL_THICKNESS, y: FIELD_HEIGHT },
        ),
    ]
}

/// What the wall at place `i` of `wall_places` carries.
pub open spec fn wall_at(i: int) -> Components {
    let (pos, dims) = wall_places()[i];
    let transform = CTransform { pos, rot: Vec2 { x: 0, y: 0 } };
    let wall = Wall { color: Color { r: 245, g: 245, b: 245, a: 255 } };
    if i == 1 {
        ball_eater_parts(transform, Shape { dims }, wall)
    } else {
        wall_parts(transform, Shape { dims }, wall)
    }
}

/// The request for the body of the wall at place `i` of `wall_places`.
pub open spec fn wall_request(i: int, wall: EntityId) -> BodyRequest {
    BodyRequest { entity: wall, descriptor: fixed_body(wall_places()[i].0, wall_places()[i].1) }
}

/// Creates the four walls of the play field. The wall below it eats balls.
/// The result names the walls above, below, left and right, in this order.
pub fn spawn_walls(ecs: &mut World, state: &mut State) -> (walls: [EntityId; 4])
    ensures
        forall|i: int| 0 <= i < 4 ==> !world_entities(*old(ecs)).contains_key(#[trigger] walls[i]),
        forall|i: int, j: int| 0 <= i < j < 4 ==> walls[i] != walls[j],
        world_entities(*final(ecs)) == world_entities(*old(ecs)).insert(walls[0], wall_at(0)).insert(
            walls[1],
            wall_at(1),
        ).insert(walls[2], wall_at(2)).insert(walls[3], wall_at(3)),
        only_requests_differ(*final(state), *old(state)),
        final(state).physics.body_requests@ == old(state).physics.body_requests@.push(
            wall_request(0, walls[0]),
        ).push(wall_request(1, walls[1])).push(wall_request(2, walls[2])).push(
            wall_request(3, walls[3]),
        ),
{
    let wall = Wall { color: Color::raywhite() };
    let rot = Vec2 { x: 0, y: 0 };

    let pos = Vec2 { x: 0, y: WALL_OVERLAP - WALL_THICKNESS };
    let dims = Vec2 { x: FIELD_WIDTH, y: WALL_THICKNESS };
    let top = spawn_wall_entity(ecs, CTransform { pos, rot }, Shape { dims }, wall);
    state.physics.spawn_body(top, make_fixed_body(pos, dims));

    let pos = Vec2 { x: 0, y: FIELD_HEIGHT - WALL_OVERLAP };
    let dims = Vec2 { x: FIELD_WIDTH, y: WALL_THICKNESS };
    let bottom = spawn_ball_eater_entity(ecs, CTransform { pos, rot }, Shape { dims }, wall);
    state.physics.spawn_body(bottom, make_fixed_body(pos, dims));

    let pos = Vec2 { x: WALL_OVERLAP - WALL_THICKNESS, y: 0 };
    let dims = Vec2 { x: WALL_THICKNESS, y: FIELD_HEIGHT };
    let left = spawn_wall_entity(ecs, CTransform { pos, rot }, Shape { dims }, wall);
    state.physics.spawn_body(left, make_fixed_body(pos, dims));

    let pos = Vec2 { x: FIELD_WIDTH - WALL_OVERLAP, y: 0 };
    let dims = Vec2 { x: WALL_THICKNESS, y: FIELD_HEIGHT };
    let right = spawn_wall_entity(ecs, CTransform { pos, rot }, Shape { dims }, wall);
    state.physics.spawn_body(right, make_fixed_body(pos, dims));

    [top, bottom, left, right]
}

/// Creates a ball at `pos` with the velocity `vel`, launched by the paddle
/// `owner`.
pub fn spawn_ball(ecs: &mut World, state: &mut State, pos: Vec2, vel: Vec2, owner: EntityId) -> (ball:
    EntityId)
    ensures
        !world_entities(*old(ecs)).contains_key(ball),
        world_entities(*final(ecs)) == world_entities(*old(ecs)).insert(
            ball,
            ball_parts(
                CTransform { pos, rot: Vec2 { x: 0, y: 0 } },
                Physics { vel, rot_vel: 0 },
                OwnedBy { owner },
                Shape { dims: Vec2 { x: BALL_SIZE, y: BALL_SIZE } },
            ),
        ),
        only_requests_differ(*final(state), *old(state)),
        final(state).physics.body_requests@ == old(state).physics.body_requests@.push(
            BodyRequest { entity: ball, descriptor: ball_body(pos, vel) },
        ),
{
    let ball = spawn_ball_entity(
        ecs,
        CTransform { pos, rot: Vec2 { x: 0, y: 0 } },
        Physics { vel, rot_vel: 0 },
        OwnedBy { owner },
        Shape { dims: Vec2 { x: BALL_SIZE, y: BALL_SIZE } },
    );
    let body = BodyDescriptor {
        kind: BodyKind::Dynamic,
        translation: pos,
        velocity: vel,
        half_extents: (Vec2 { x: BALL_SIZE, y: BALL_SIZE }).halve(),
        restitution: ELASTIC,
        friction: Some(0),
        mass: Some(BALL_MASS),
        free_flight: true,
        ccd_enabled: true,
        can_sleep: false,
        collision_events: true,
    };
    state.physics.spawn_body(ball, body);
    ball
}

/// Creates an ordinary block of the extents `shape` with its upper left
/// corner at `pos`, the colour `color` and `hp` hit points.
pub fn spawn_block(
    ecs: &mut World,
    state: &mut State,
    pos: Vec2,
    shape: Vec2,
    color: Color,
    hp: u32,
) -> (block: EntityId)
    ensures
        !world_entities(*old(ecs)).contains_key(block),
        world_entities(*final(ecs)) == world_entities(*old(ecs)).insert(
            block,
            block_parts(
                CTransform { pos, rot: Vec2 { x: 0, y: 1024 } },
                Shape { dims: shape },
                Block { color },
                Health { hp },
            ),
        ),
        only_requests_differ(*final(state), *old(state)),
        final(state).physics.body_requests@ == old(state).physics.body_requests@.push(
            BodyRequest { entity: block, descriptor: fixed_body(pos, shape) },
        ),
{
    let block = spawn_block_entity(
        ecs,
        CTransform { pos, rot: Vec2 { x: 0, y: 1024 } },
        Shape { dims: shape },
        Block { color },
        Health { hp },
    );
    state.physics.spawn_body(block, make_fixed_body(pos, shape));
    block
}

/// Creates a strong block: a block that no ordinary hit destroys.
pub fn spawn_strong_block(
    ecs: &mut World,
    state: &mut State,
    pos: Vec2,
    shape: Vec2,
    color: Color,
    hp: u32,
) -> (block: EntityId)
    ensures
        !world_entities(*old(ecs)).contains_key(block),
        world_entities(*final(ecs)) == world_entities(*old(ecs)).insert(
            block,
            strong_block_parts(
                CTransform { pos, rot: Vec2 { x: 0, y: 1024 } },
                Shape { dims: shape },
                Block { color },
                Health { hp },
            ),
        ),
        only_requests_differ(*final(state), *old(state)),
        final(state).physics.body_requests@ == old(state).physics.body_requests@.push(
            BodyRequest { entity: block, descriptor: fixed_body(pos, shape) },
        ),
{
    let block = spawn_strong_block_entity(
        ecs,
        CTransform { pos, rot: Vec2 { x: 0, y: 1024 } },
        Shape { dims: shape },
        Block { color },
        Health { hp },
    );
    state.physics.spawn_body(block, make_fixed_body(pos, shape));
    block
}

/// Creates the paddle of the player, of the extents `shape` with its upper
/// left corner at `pos`. The paddle is drawn in the colour of outlines,
/// whatever `color` is.
pub fn spawn_paddle(ecs: &mut World, state: &mut State, pos: Vec2, shape: Vec2, color: Color) -> (paddle:
    EntityId)
    ensures
        !world_entities(*old(ecs)).contains_key(paddle),
        world_entities(*final(ecs)) == world_entities(*old(ecs)).insert(
            paddle,
            paddle_parts(
                CTransform { pos, rot: Vec2 { x: 0, y: 0 } },
                Physics { vel: Vec2 { x: 0, y: 0 }, rot_vel: 0 },
                Paddle { size: 1 },
                Shape { dims: shape },
            ),
        ),
        only_requests_differ(*final(state), *old(state)),
        final(state).physics.body_requests@ == old(state).physics.body_requests@.push(
            BodyRequest { entity: paddle, descriptor: paddle_body(pos, shape) },
        ),
{
    let paddle = spawn_paddle_entity(
        ecs,
        CTransform { pos, rot: Vec2 { x: 0, y: 0 } },
        Physics { vel: Vec2 { x: 0, y: 0 }, rot_vel: 0 },
        Paddle { size: 1 },
        Shape { dims: shape },
    );
    let body = BodyDescriptor {
        kind: BodyKind::KinematicPositionBased,
        translation: pos.centre(shape),
        velocity: Vec2 { x: 0, y: 0 },
        half_extents: shape.halve(),
        restitution: ELASTIC,
        friction: None,
        mass: None,
        free_flight: false,
        ccd_enabled: false,
        can_sleep: false,
        collision_events: false,
    };
    state.physics.spawn_body(paddle, body);
    paddle
}

/// No body of any kind of entity may sleep, and the body of a ball is checked
/// for collisions continuously.
pub proof fn bodies_stay_awake(pos: Vec2, dims: Vec2, vel: Vec2)
    ensures
        !fixed_body(pos, dims).can_sleep,
        !paddle_body(pos, dims).can_sleep,
        !ball_body(pos, vel).can_sleep,
        ball_body(pos, vel).ccd_enabled,
{
}

} // verus!

//! Collision response and the fixed flight angle of the ball.
//!
//! The physics world reflects the ball; the rules here decide what a contact
//! means for the game: damage, steering off the paddle, the loss of a ball,
//! and which sounds are raised.

use vstd::prelude::*;
use hecs::World;
use crate::audio_playing::AudioCommand;
use crate::components::{CTransform, EntityId, Health, Physics, Vec2};
use crate::entity_archetypes::{FIELD_HEIGHT, FIELD_WIDTH};
use crate::physics_engine::{
    collider_parents, drained, resolved, stepped, BodyHandle, ColliderId, ContactEvent,
    PhysicsEngine,
};
use crate::state::{DeletionEvent, State};
use crate::world::{
    Components, entity_ids, has_ball, has_ball_eater, has_block, has_free_to_leave_play_field,
    has_paddle, has_rigid_body, has_strong_block, has_wall, health_of, lists_entities, physics_of,
    set_health, set_physics, set_transform, shape_of, take_one_more, transform_of, world_entities,
};

verus! {

/// The horizontal speed of a ball in flight: the design speed of 100 pixels
/// per second times the cosine of the design angle of 60 degrees.
pub const BALL_SPEED_X: i32 = 51_200;

/// The vertical speed of a ball in flight: the design speed times the sine of
/// the design angle, rounded to the length unit.
pub const BALL_SPEED_Y: i32 = 88_681;

/// What an entity is to the rules of collision.
#[derive(Clone, Copy, Debug, PartialEq, Eq, Structural)]
pub enum Role {
    Ball,
    StrongBlock,
    Block,
    Paddle,
    BallEater,
    Wall,
    Bystander,
}

/// The role of an entity that carries `c`. An entity has one role: where it
/// carries the marks of several, the first of ball, block, paddle, ball eater
/// and wall counts.
pub open spec fn role_of(c: Components) -> Role {
    if c.ball {
        Role::Ball
    } else if c.block is Some {
        if c.strong_block {
            Role::StrongBlock
        } else {
            Role::Block
        }
    } else if c.paddle is Some {
        Role::Paddle
    } else if c.ball_eater {
        Role::BallEater
    } else if c.wall is Some {
        Role::Wall
    } else {
        Role::Bystander
    }
}

/// The role of `entity` among `entities`; one that is not live stands by.
pub open spec fn role_in(entities: Map<EntityId, Components>, entity: EntityId) -> Role {
    if entities.contains_key(entity) {
        role_of(entities[entity])
    } else {
        Role::Bystander
    }
}

/// The third of the paddle that the ball touches.
#[derive(Clone, Copy, Debug, PartialEq, Eq, Structural)]
pub enum Zone {
    Left,
    Middle,
    Right,
}

/// The zone of a paddle from `paddle_start` to `paddle_end` in which `contact`
/// lies: the left third and the right third without their borders, and the
/// middle for everything else.
pub open spec fn zone_of(paddle_start: int, paddle_end: int, contact: int) -> Zone {
    let width = paddle_end - paddle_start;
    if paddle_start < contact && 3 * (contact - paddle_start) < width {
        Zone::Left
    } else if 3 * (contact - paddle_start) > 2 * width && contact < paddle_end {
        Zone::Right
    } else {
        Zone::Middle
    }
}

/// The sign of a speed; a ball at rest counts as moving forward.
pub open spec fn sign(v: int) -> int {
    if v < 0 {
        -1
    } else {
        1
    }
}

/// The velocity with the signs of `vel`, the design angle and the design speed.
pub open spec fn normalized(vel: Vec2) -> Vec2 {
    Vec2 { x: (sign(vel.x as int) * BALL_SPEED_X) as i32, y: (sign(vel.y as int) * BALL_SPEED_Y) as i32 }
}

/// The velocity of a ball that leaves the paddle from `zone`: to the left and
/// up from the left third, to the right and up from the right third, and with
/// its signs unchanged from the middle; always at the design angle and speed.
pub open spec fn steered(vel: Vec2, zone: Zone) -> Vec2 {
    match zone {
        Zone::Left => Vec2 { x: (-BALL_SPEED_X) as i32, y: (-BALL_SPEED_Y) as i32 },
        Zone::Right => Vec2 { x: BALL_SPEED_X, y: (-BALL_SPEED_Y) as i32 },
        Zone::Middle => normalized(vel),
    }
}

/// What collision response works on: the entities, the audio cues and the
/// removals that wait for the end of the tick.
pub struct Outcome {
    pub entities: Map<EntityId, Components>,
    pub audio: Seq<AudioCommand>,
    pub deletions: Seq<DeletionEvent>,
}

/// The removals after the removal of `entity` and of its body was asked for.
/// Asking twice is asking once.
pub open spec fn scheduled(deletions: Seq<DeletionEvent>, entity: EntityId) -> Seq<DeletionEvent> {
    let with_entity = if deletions.contains(DeletionEvent::Entity { entity }) {
        deletions
    } else {
        deletions.push(DeletionEvent::Entity { entity })
    };
    if with_entity.contains(DeletionEvent::Physics { entity }) {
        with_entity
    } else {
        with_entity.push(DeletionEvent::Physics { entity })
    }
}

/// The entities after the ball `ball` left the paddle `paddle`. The ball is
/// steered by where its centre lies on the paddle. Nothing changes where the
/// paddle or the ball lacks a position or extents, or the ball a velocity.
pub open spec fn steer(
    entities: Map<EntityId, Components>,
    ball: EntityId,
    paddle: EntityId,
) -> Map<EntityId, Components> {
    let p = entities[paddle];
    let b = entities[ball];
    if p.transform is Some && p.shape is Some && b.transform is Some && b.shape is Some
        && b.physics is Some {
        let start = p.transform->0.pos.x as int;
        let end = start + p.shape->0.dims.x;
        let twice_centre = 2 * b.transform->0.pos.x + b.shape->0.dims.x;
        let zone = zone_of(2 * start, 2 * end, twice_centre);
        let physics = Physics {
            vel: steered(b.physics->0.vel, zone),
            rot_vel: b.physics->0.rot_vel,
        };
        entities.insert(ball, Components { physics: Some(physics), ..b })
    } else {
        entities
    }
}

/// What the contact of the ball `ball` with `other` does.
///
/// - A strong block only sounds.
/// - An ordinary block with health loses one point. With its last point it is
///   marked for removal. A block without points is left alone.
/// - A paddle steers the ball.
/// - A ball eater has the ball marked for removal.
/// - A wall only sounds.
/// - Anything else is ignored.
pub open spec fn hit(before: Outcome, ball: EntityId, other: EntityId) -> Outcome {
    match role_in(before.entities, other) {
        Role::StrongBlock => Outcome {
            audio: before.audio.push(AudioCommand::BallBlockBounce),
            ..before
        },
        Role::Block => {
            let c = before.entities[other];
            match c.health {
                Some(health) => if health.hp == 0 {
                    before
                } else {
                    let left = Health { hp: (health.hp - 1) as u32 };
                    Outcome {
                        entities: before.entities.insert(
                            other,
                            Components { health: Some(left), ..c },
                        ),
                        audio: before.audio.push(
                            if left.hp == 0 {
                                AudioCommand::BallBlockBounce
                            } else {
                                AudioCommand::BallSturdyBlockBounce
                            },
                        ),
                        deletions: if left.hp == 0 {
                            scheduled(before.deletions, other)
                        } else {
                            before.deletions
                        },
                    }
                },
                None => before,
            }
        },
        Role::Paddle => Outcome {
            entities: steer(before.entities, ball, other),
            audio: before.audio.push(AudioCommand::BallPaddleBounce),
            ..before
        },
        Role::BallEater => Outcome {
            audio: before.audio.push(AudioCommand::BallDrop),
            deletions: scheduled(before.deletions, ball),
            ..before
        },
        Role::Wall => Outcome { audio: before.audio.push(AudioCommand::BallWallBounce), ..before },
        Role::Ball | Role::Bystander => before,
    }
}

/// What the contact of `a` and `b` does: the rule of the ball among them, in
/// whichever order they come; no ball, no effect.
pub open spec fn resolve(before: Outcome, a: EntityId, b: EntityId) -> Outcome {
    if role_in(before.entities, a) == Role::Ball {
        hit(before, a, b)
    } else if role_in(before.entities, b) == Role::Ball {
        hit(before, b, a)
    } else {
        before
    }
}

/// What one collision event does. Only the start of a contact counts, and
/// only where both colliders still lead to an entity.
pub open spec fn respond_to(
    before: Outcome,
    mapping: Map<EntityId, BodyHandle>,
    parents: Map<ColliderId, BodyHandle>,
    event: ContactEvent,
) -> Outcome {
    if event.started {
        match (
            resolved(mapping, parents, event.collider1),
            resolved(mapping, parents, event.collider2),
        ) {
            (Some(a), Some(b)) => resolve(before, a, b),
            _ => before,
        }
    } else {
        before
    }
}

/// What the events do, one after the other.
pub open spec fn respond_to_all(
    before: Outcome,
    mapping: Map<EntityId, BodyHandle>,
    parents: Map<ColliderId, BodyHandle>,
    events: Seq<ContactEvent>,
) -> Outcome
    decreases events.len(),
{
    if events.len() == 0 {
        before
    } else {
        respond_to(
            respond_to_all(before, mapping, parents, events.drop_last()),
            mapping,
            parents,
            events.last(),
        )
    }
}

/// What collision response works on, as it stands in the world and the state.
pub open spec fn outcome_of(ecs: World, state: State) -> Outcome {
    Outcome {
        entities: world_entities(ecs),
        audio: state.audio_command_buffer@,
        deletions: state.deletion_events@,
    }
}

/// `state` differs from `before` in nothing but the audio cues and the
/// waiting removals.
pub open spec fn only_queues_differ(state: State, before: State) -> bool {
    state == (State {
        audio_command_buffer: state.audio_command_buffer,
        deletion_events: state.deletion_events,
        ..before
    })
}

/// The role of an entity.
pub fn classify(ecs: &World, entity: EntityId) -> (role: Role)
    ensures
        role == role_in(world_entities(*ecs), entity),
{
    if has_ball(ecs, entity) {
        Role::Ball
    } else if has_block(ecs, entity) {
        if has_strong_block(ecs, entity) {
            Role::StrongBlock
        } else {
            Role::Block
        }
    } else if has_paddle(ecs, entity) {
        Role::Paddle
    } else if has_ball_eater(ecs, entity) {
        Role::BallEater
    } else if has_wall(ecs, entity) {
        Role::Wall
    } else {
        Role::Bystander
    }
}

/// The third of the paddle in which `contact` lies; see `zone_of`.
pub fn steering_zone(paddle_start: i32, paddle_end: i32, contact: i32) -> (zone: Zone)
    ensures
        zone == zone_of(paddle_start as int, paddle_end as int, contact as int),
{
    zone_between(paddle_start as i64, paddle_end as i64, contact as i64)
}

fn zone_between(paddle_start: i64, paddle_end: i64, contact: i64) -> (zone: Zone)
    requires
        -0x2_0000_0000 <= paddle_start <= 0x2_0000_0000,
        -0x2_0000_0000 <= paddle_end <= 0x2_0000_0000,
        -0x2_0000_0000 <= contact <= 0x2_0000_0000,
    ensures
        zone == zone_of(paddle_start as int, paddle_end as int, contact as int),
{
    let width = paddle_end - paddle_start;
    let offset = contact - paddle_start;
    if paddle_start < contact && 3 * offset < width {
        Zone::Left
    } else if 3 * offset > 2 * width && contact < paddle_end {
        Zone::Right
    } else {
        Zone::Middle
    }
}

/// The velocity with the signs of `vel`, the design angle and the design speed.
pub fn normalize_velocity(vel: Vec2) -> (fixed: Vec2)
    ensures
        fixed == normalized(vel),
{
    Vec2 {
        x: if vel.x < 0 { -BALL_SPEED_X } else { BALL_SPEED_X },
        y: if vel.y < 0 { -BALL_SPEED_Y } else { BALL_SPEED_Y },
    }
}

/// The velocity of a ball that leaves the paddle from `zone`; see `steered`.
pub fn steer_velocity(vel: Vec2, zone: Zone) -> (fixed: Vec2)
    ensures
        fixed == steered(vel, zone),
{
    match zone {
        Zone::Left => Vec2 { x: -BALL_SPEED_X, y: -BALL_SPEED_Y },
        Zone::Right => Vec2 { x: BALL_SPEED_X, y: -BALL_SPEED_Y },
        Zone::Middle => normalize_velocity(vel),
    }
}

/// Whether `event` waits among `events`.
pub fn contains_deletion(events: &Vec<DeletionEvent>, event: DeletionEvent) -> (found: bool)
    ensures
        found == events@.contains(event),
{
    let mut i: usize = 0;
    while i < events.len()
        invariant
            i <= events.len(),
            forall|j: int| 0 <= j < i ==> events@[j] != event,
        decreases events.len() - i,
    {
        if events[i] == event {
            return true;
        }
        i += 1;
    }
    false
}

/// Asks for the removal of `entity` and of its body at the end of the tick.
/// Asking twice is asking once.
pub fn schedule_deletion(state: &mut State, entity: EntityId)
    ensures
        final(state).deletion_events@ == scheduled(old(state).deletion_events@, entity),
        *final(state) == (State { deletion_events: final(state).deletion_events, ..*old(state) }),
        old(state).deletion_events@.no_duplicates()
            ==> final(state).deletion_events@.no_duplicates(),
{
    let of_entity = DeletionEvent::Entity { entity };
    if !contains_deletion(&state.deletion_events, of_entity) {
        state.deletion_events.push(of_entity);
    }
    let of_body = DeletionEvent::Physics { entity };
    if !contains_deletion(&state.deletion_events, of_body) {
        state.deletion_events.push(of_body);
    }
    proof {
        scheduled_keeps_unique(old(state).deletion_events@, entity);
    }
}

/// Scheduling a removal repeats no removal and leaves those that wait in place.
pub proof fn scheduled_keeps_unique(deletions: Seq<DeletionEvent>, entity: EntityId)
    ensures
        deletions.no_duplicates() ==> scheduled(deletions, entity).no_duplicates(),
        scheduled(deletions, entity).contains(DeletionEvent::Entity { entity }),
        scheduled(deletions, entity).contains(DeletionEvent::Physics { entity }),
        deletions.is_prefix_of(scheduled(deletions, entity)),
        forall|event: DeletionEvent| #[trigger]
            scheduled(deletions, entity).contains(event) ==> deletions.contains(event) || event
                == (DeletionEvent::Entity { entity }) || event == (DeletionEvent::Physics {
                entity,
            }),
{
    let of_entity = DeletionEvent::Entity { entity };
    let of_body = DeletionEvent::Physics { entity };
    let with_entity = if deletions.contains(of_entity) {
        deletions
    } else {
        deletions.push(of_entity)
    };
    let after = scheduled(deletions, entity);
    if !deletions.contains(of_entity) {
        assert(with_entity[deletions.len() as int] == of_entity);
    }
    assert(with_entity.contains(of_entity));
    let i = choose|i: int| 0 <= i < with_entity.len() && with_entity[i] == of_entity;
    assert(after[i] == of_entity);
    if !with_entity.contains(of_body) {
        assert(after[with_entity.len() as int] == of_body);
    }
}

/// Steers the ball `ball` off the paddle `paddle`; see `steer`.
fn steer_ball(ecs: &mut World, ball: EntityId, paddle: EntityId)
    requires
        world_entities(*old(ecs)).contains_key(ball),
        world_entities(*old(ecs)).contains_key(paddle),
    ensures
        world_entities(*final(ecs)) == steer(world_entities(*old(ecs)), ball, paddle),
{
    let paddle_transform = transform_of(ecs, paddle);
    let paddle_shape = shape_of(ecs, paddle);
    let ball_transform = transform_of(ecs, ball);
    let ball_shape = shape_of(ecs, ball);
    let ball_physics = physics_of(ecs, ball);
    match (paddle_transform, paddle_shape, ball_transform, ball_shape, ball_physics) {
        (Some(pt), Some(ps), Some(bt), Some(bs), Some(bp)) => {
            let start: i64 = pt.pos.x as i64;
            let end: i64 = start + ps.dims.x as i64;
            let twice_centre: i64 = 2 * (bt.pos.x as i64) + bs.dims.x as i64;
            let zone = zone_between(2 * start, 2 * end, twice_centre);
            let physics = Physics { vel: steer_velocity(bp.vel, zone), rot_vel: bp.rot_vel };
            set_physics(ecs, ball, physics);
        },
        _ => {},
    }
}

/// Applies the rule for the contact of the ball `ball` with `other`; see `hit`.
fn apply_hit(ecs: &mut World, state: &mut State, ball: EntityId, other: EntityId)
    requires
        role_in(world_entities(*old(ecs)), ball) == Role::Ball,
    ensures
        outcome_of(*final(ecs), *final(state)) == hit(
            outcome_of(*old(ecs), *old(state)),
            ball,
            other,
        ),
        only_queues_differ(*final(state), *old(state)),
        old(state).deletion_events@.no_duplicates()
            ==> final(state).deletion_events@.no_duplicates(),
{
    match classify(ecs, other) {
        Role::StrongBlock => {
            state.audio_command_buffer.push(AudioCommand::BallBlockBounce);
        },
        Role::Block => {
            match health_of(ecs, other) {
                Some(health) => {
                    if health.hp > 0 {
                        let left = Health { hp: health.hp - 1 };
                        set_health(ecs, other, left);
                        if left.hp == 0 {
                            state.audio_command_buffer.push(AudioCommand::BallBlockBounce);
                            schedule_deletion(state, other);
                        } else {
                            state.audio_command_buffer.push(AudioCommand::BallSturdyBlockBounce);
                        }
                    }
                },
                None => {},
            }
        },
        Role::Paddle => {
            state.audio_command_buffer.push(AudioCommand::BallPaddleBounce);
            steer_ball(ecs, ball, other);
        },
        Role::BallEater => {
            state.audio_command_buffer.push(AudioCommand::BallDrop);
            schedule_deletion(state, ball);
        },
        Role::Wall => {
            state.audio_command_buffer.push(AudioCommand::BallWallBounce);
        },
        Role::Ball | Role::Bystander => {},
    }
}

/// Applies the rule for the contact of the entities `a` and `b`; see `resolve`.
pub fn resolve_collision(ecs: &mut World, state: &mut State, a: EntityId, b: EntityId)
    ensures
        outcome_of(*final(ecs), *final(state)) == resolve(
            outcome_of(*old(ecs), *old(state)),
            a,
            b,
        ),
        only_queues_differ(*final(state), *old(state)),
        old(state).deletion_events@.no_duplicates()
            ==> final(state).deletion_events@.no_duplicates(),
{
    if classify(ecs, a) == Role::Ball {
        apply_hit(ecs, state, a, b);
    } else if classify(ecs, b) == Role::Ball {
        apply_hit(ecs, state, b, a);
    }
}

/// Responds to the collision events of the latest physics step, in the order
/// in which they were collected. Events that end a contact are skipped, and
/// so are events of a collider that leads to no entity. The events stay in
/// the buffer of the physics adapter.
pub fn respond_to_collisions(ecs: &mut World, state: &mut State)
    ensures
        outcome_of(*final(ecs), *final(state)) == respond_to_all(
            outcome_of(*old(ecs), *old(state)),
            old(state).physics.mapping(),
            collider_parents(old(state).physics.collider_set),
            old(state).physics.collision_events@,
        ),
        only_queues_differ(*final(state), *old(state)),
        old(state).deletion_events@.no_duplicates()
            ==> final(state).deletion_events@.no_duplicates(),
{
    let count = state.physics.collision_events.len();
    let ghost before = outcome_of(*ecs, *state);
    let ghost mapping = state.physics.mapping();
    let ghost parents = collider_parents(state.physics.collider_set);
    let ghost events = state.physics.collision_events@;
    let mut i: usize = 0;
    assert(events.take(0) =~= Seq::empty());
    while i < count
        invariant
            i <= count,
            count == events.len(),
            events == old(state).physics.collision_events@,
            mapping == old(state).physics.mapping(),
            parents == collider_parents(old(state).physics.collider_set),
            before == outcome_of(*old(ecs), *old(state)),
            only_queues_differ(*state, *old(state)),
            old(state).deletion_events@.no_duplicates() ==> state.deletion_events@.no_duplicates(),
            outcome_of(*ecs, *state) == respond_to_all(before, mapping, parents, events.take(i as int)),
        decreases count - i,
    {
        let event = state.physics.collision_events[i];
        proof {
            let next = events.take(i + 1);
            assert(next.drop_last() =~= events.take(i as int));
            assert(next.last() == event);
        }
        if event.started {
            let a = state.physics.resolve_entity(event.collider1);
            let b = state.physics.resolve_entity(event.collider2);
            match (a, b) {
                (Some(a), Some(b)) => {
                    resolve_collision(ecs, state, a, b);
                },
                _ => {},
            }
        }
        i += 1;
    }
    assert(events.take(count as int) =~= events);
}

/// Advances the physics world by one step and then collects the collision
/// events that wait: the buffer of the adapter holds exactly the events that
/// waited after the step, and none waits any more. The mapping between
/// entities and bodies and the requests for bodies are untouched, and so is
/// the state beside the physics adapter.
pub fn step_physics(state: &mut State)
    ensures
        exists|after_step: PhysicsEngine|
            #[trigger] stepped(old(state).physics, after_step) && drained(
                after_step,
                final(state).physics,
            ),
        final(state).physics.links == old(state).physics.links,
        final(state).physics.body_requests == old(state).physics.body_requests,
        *final(state) == (State { physics: final(state).physics, ..*old(state) }),
{
    state.physics.step();
    let ghost after_step = state.physics;
    state.physics.drain_collision_events();
    assert(stepped(old(state).physics, after_step) && drained(after_step, state.physics));
}

/// Whether the flight angle of an entity that carries `c` is fixed in each
/// tick: it is a ball with a velocity and a body that the adapter knows.
pub open spec fn flies(c: Components, mapped: bool) -> bool {
    c.ball && c.has_rigid_body && c.physics is Some && mapped
}

/// `c` with its velocity at the design angle and speed.
pub open spec fn with_fixed_angle(c: Components) -> Components {
    Components {
        physics: Some(
            Physics { vel: normalized(c.physics->0.vel), rot_vel: c.physics->0.rot_vel },
        ),
        ..c
    }
}

/// The entities after the flight angle of every flying ball was fixed.
pub open spec fn angles_fixed(
    entities: Map<EntityId, Components>,
    mapping: Map<EntityId, BodyHandle>,
) -> Map<EntityId, Components> {
    Map::new(
        |e: EntityId| entities.contains_key(e),
        |e: EntityId|
            if flies(entities[e], mapping.contains_key(e)) {
                with_fixed_angle(entities[e])
            } else {
                entities[e]
            },
    )
}

/// Sets the velocity of every flying ball to the design angle and speed,
/// keeping the signs of its two components. Free reflection would let the
/// flight grow ever flatter; this keeps it playable.
pub fn set_ball_to_angle(ecs: &mut World, state: &State)
    ensures
        world_entities(*final(ecs)) == angles_fixed(
            world_entities(*old(ecs)),
            state.physics.mapping(),
        ),
{
    let ids = entity_ids(ecs);
    let ghost before = world_entities(*ecs);
    let ghost mapping = state.physics.mapping();
    let mut i: usize = 0;
    while i < ids.len()
        invariant
            i <= ids.len(),
            before == world_entities(*old(ecs)),
            mapping == state.physics.mapping(),
            lists_entities(ids@, before),
            world_entities(*ecs) =~= Map::new(
                |e: EntityId| before.contains_key(e),
                |e: EntityId|
                    if ids@.take(i as int).contains(e) && flies(
                        before[e],
                        mapping.contains_key(e),
                    ) {
                        with_fixed_angle(before[e])
                    } else {
                        before[e]
                    },
            ),
        decreases ids.len() - i,
    {
        let entity = ids[i];
        proof {
            take_one_more(ids@, i as int);
            assert(ids@.contains(entity));
        }
        if has_ball(ecs, entity) && has_rigid_body(ecs, entity) {
            if state.physics.get_rigid_body_handle(entity).is_some() {
                match physics_of(ecs, entity) {
                    Some(physics) => {
                        let fixed = Physics {
                            vel: normalize_velocity(physics.vel),
                            rot_vel: physics.rot_vel,
                        };
                        set_physics(ecs, entity, fixed);
                    },
                    None => {},
                }
            }
        }
        i += 1;
    }
    proof {
        assert(ids@.take(ids.len() as int) =~= ids@);
        assert(world_entities(*ecs) =~= angles_fixed(before, mapping));
    }
}

/// Fixing the flight angle twice gives what fixing it once gives.
pub proof fn normalization_is_idempotent(vel: Vec2)
    ensures
        normalized(normalized(vel)) == normalized(vel),
{
}

/// Fixing the flight angle of every ball twice, with no change of velocity
/// in between, leaves the entities as fixing it once does.
pub proof fn fixing_angles_is_idempotent(
    entities: Map<EntityId, Components>,
    mapping: Map<EntityId, BodyHandle>,
)
    ensures
        angles_fixed(angles_fixed(entities, mapping), mapping) == angles_fixed(entities, mapping),
{
    let once = angles_fixed(entities, mapping);
    assert forall|e: EntityId| once.contains_key(e) implies #[trigger] angles_fixed(
        once,
        mapping,
    )[e] == once[e] by {
        normalization_is_idempotent(entities[e].physics->0.vel);
    }
    assert(angles_fixed(once, mapping) =~= once);
}

/// The contact of a ball with an ordinary block that has health takes
/// exactly one point from the block, in whichever order the two are named.
/// The last point leaves exactly one removal of the block and one of its body
/// waiting. A block without points is left alone, so that a second contact in
/// the same tick asks for nothing more.
pub proof fn block_loses_one_point(before: Outcome, ball: EntityId, block: EntityId)
    requires
        role_in(before.entities, ball) == Role::Ball,
        role_in(before.entities, block) == Role::Block,
        before.entities[block].health is Some,
        before.deletions.no_duplicates(),
    ensures
        resolve(before, ball, block) == resolve(before, block, ball),
        ({
            let hp = before.entities[block].health->0.hp;
            let after = resolve(before, ball, block);
            &&& after.deletions.no_duplicates()
            &&& hp > 0 ==> after.entities[block].health == Some(Health { hp: (hp - 1) as u32 })
            &&& hp == 1 ==> after.deletions.contains(DeletionEvent::Entity { entity: block })
                && after.deletions.contains(DeletionEvent::Physics { entity: block })
            &&& hp > 1 ==> after.deletions == before.deletions
            &&& hp == 0 ==> after == before
        }),
{
    scheduled_keeps_unique(before.deletions, block);
}

/// What `times` contacts of the ball `ball` with `block`, one after the other, do.
pub open spec fn hit_repeatedly(
    before: Outcome,
    ball: EntityId,
    block: EntityId,
    times: nat,
) -> Outcome
    decreases times,
{
    if times == 0 {
        before
    } else {
        resolve(hit_repeatedly(before, ball, block, (times - 1) as nat), ball, block)
    }
}

/// The health of an ordinary block goes down by one with each contact with
/// a ball until it is zero, and stays there. The removal of the block and
/// of its body is asked for with the contact that takes the last point and
/// not before, and each waits once however many contacts follow.
pub proof fn block_wears_down(before: Outcome, ball: EntityId, block: EntityId, times: nat)
    requires
        role_in(before.entities, ball) == Role::Ball,
        role_in(before.entities, block) == Role::Block,
        before.entities[block].health is Some,
        before.entities[block].health->0.hp > 0,
        before.deletions.no_duplicates(),
    ensures
        ({
            let hp = before.entities[block].health->0.hp;
            let after = hit_repeatedly(before, ball, block, times);
            &&& role_in(after.entities, ball) == Role::Ball
            &&& role_in(after.entities, block) == Role::Block
            &&& after.entities[block].health == Some(
                Health {
                    hp: if times >= hp {
                        0
                    } else {
                        (hp - times) as u32
                    },
                },
            )
            &&& after.deletions.no_duplicates()
            &&& times < hp ==> after.deletions == before.deletions
            &&& times >= hp ==> after.deletions == scheduled(before.deletions, block)
        }),
    decreases times,
{
    if times > 0 {
        let earlier = hit_repeatedly(before, ball, block, (times - 1) as nat);
        block_wears_down(before, ball, block, (times - 1) as nat);
        scheduled_keeps_unique(before.deletions, block);
        scheduled_keeps_unique(earlier.deletions, block);
    }
}

/// The contact of a ball with a strong block changes no entity and asks for
/// no removal, in whichever order the two are named.
pub proof fn strong_block_is_immune(before: Outcome, ball: EntityId, block: EntityId)
    requires
        role_in(before.entities, block) == Role::StrongBlock,
    ensures
        resolve(before, ball, block).entities == before.entities,
        resolve(before, ball, block).deletions == before.deletions,
        resolve(before, block, ball).entities == before.entities,
        resolve(before, block, ball).deletions == before.deletions,
{
}

/// `later` asks for no removal of `entity` that `earlier` does not ask for.
pub open spec fn no_new_removal_of(
    later: Seq<DeletionEvent>,
    earlier: Seq<DeletionEvent>,
    entity: EntityId,
) -> bool {
    &&& later.contains(DeletionEvent::Entity { entity }) ==> earlier.contains(
        DeletionEvent::Entity { entity },
    )
    &&& later.contains(DeletionEvent::Physics { entity }) ==> earlier.contains(
        DeletionEvent::Physics { entity },
    )
}

/// No contact of any two entities touches a strong block or asks for its removal.
pub proof fn contact_spares_strong_block(before: Outcome, a: EntityId, b: EntityId, block: EntityId)
    requires
        role_in(before.entities, block) == Role::StrongBlock,
    ensures
        resolve(before, a, b).entities.contains_key(block),
        resolve(before, a, b).entities[block] == before.entities[block],
        no_new_removal_of(resolve(before, a, b).deletions, before.deletions, block),
{
    if role_in(before.entities, a) == Role::Ball {
        scheduled_keeps_unique(before.deletions, a);
        scheduled_keeps_unique(before.deletions, b);
    } else if role_in(before.entities, b) == Role::Ball {
        scheduled_keeps_unique(before.deletions, a);
        scheduled_keeps_unique(before.deletions, b);
    }
}

/// However many collision events a tick brings, a strong block comes out of
/// them as it went in, and no removal of it is asked for.
pub proof fn strong_block_survives(
    before: Outcome,
    mapping: Map<EntityId, BodyHandle>,
    parents: Map<ColliderId, BodyHandle>,
    events: Seq<ContactEvent>,
    block: EntityId,
)
    requires
        role_in(before.entities, block) == Role::StrongBlock,
    ensures
        respond_to_all(before, mapping, parents, events).entities.contains_key(block),
        respond_to_all(before, mapping, parents, events).entities[block] == before.entities[block],
        no_new_removal_of(
            respond_to_all(before, mapping, parents, events).deletions,
            before.deletions,
            block,
        ),
    decreases events.len(),
{
    if events.len() > 0 {
        strong_block_survives(before, mapping, parents, events.drop_last(), block);
        let earlier = respond_to_all(before, mapping, parents, events.drop_last());
        let event = events.last();
        if event.started {
            match (
                resolved(mapping, parents, event.collider1),
                resolved(mapping, parents, event.collider2),
            ) {
                (Some(a), Some(b)) => {
                    contact_spares_strong_block(earlier, a, b, block);
                },
                _ => {},
            }
        }
    }
}

/// A collision event is skipped where a collider is not in the physics world
/// or hangs on a body that belongs to no entity, as after the removal of the
/// body earlier on; so is an event that ends a contact.
pub proof fn dangling_event_is_skipped(
    before: Outcome,
    mapping: Map<EntityId, BodyHandle>,
    parents: Map<ColliderId, BodyHandle>,
    event: ContactEvent,
)
    requires
        !event.started || resolved(mapping, parents, event.collider1) is None || resolved(
            mapping,
            parents,
            event.collider2,
        ) is None,
    ensures
        respond_to(before, mapping, parents, event) == before,
{
}

/// However many collision events a tick brings, and whichever entities they
/// name, no removal waits twice afterwards.
pub proof fn removals_stay_unique(
    before: Outcome,
    mapping: Map<EntityId, BodyHandle>,
    parents: Map<ColliderId, BodyHandle>,
    events: Seq<ContactEvent>,
)
    requires
        before.deletions.no_duplicates(),
    ensures
        respond_to_all(before, mapping, parents, events).deletions.no_duplicates(),
    decreases events.len(),
{
    if events.len() > 0 {
        removals_stay_unique(before, mapping, parents, events.drop_last());
        let earlier = respond_to_all(before, mapping, parents, events.drop_last());
        let event = events.last();
        if event.started {
            match (
                resolved(mapping, parents, event.collider1),
                resolved(mapping, parents, event.collider2),
            ) {
                (Some(a), Some(b)) => {
                    scheduled_keeps_unique(earlier.deletions, a);
                    scheduled_keeps_unique(earlier.deletions, b);
                },
                _ => {},
            }
        }
    }
}

/// Where something of the extent `extent` lies along a stretch of the
/// length `length` after it was brought back from `v`: not before the start
/// of the stretch, and ending at least one pixel before its end. Where both
/// cannot be had, the end counts.
pub open spec fn kept_in(v: int, extent: int, length: int) -> int {
    let from_start = if v <= 0 {
        0
    } else {
        v
    };
    if from_start + extent >= length - 1024 {
        length - extent - 1024
    } else {
        from_start
    }
}

/// An entity that carries `c` is kept in the play field: it has a position
/// and extents and is not free to leave.
pub open spec fn is_kept_in_field(c: Components) -> bool {
    c.transform is Some && c.shape is Some && !c.free_to_leave_play_field
}

/// `c` at the nearest place in the play field.
pub open spec fn brought_back(c: Components) -> Components {
    let transform = c.transform->0;
    let dims = c.shape->0.dims;
    Components {
        transform: Some(
            CTransform {
                pos: Vec2 {
                    x: crate::components::clamp_i32(
                        kept_in(transform.pos.x as int, dims.x as int, FIELD_WIDTH as int),
                    ),
                    y: crate::components::clamp_i32(
                        kept_in(transform.pos.y as int, dims.y as int, FIELD_HEIGHT as int),
                    ),
                },
                rot: transform.rot,
            },
        ),
        ..c
    }
}

/// The entities after everything that may not leave the play field was
/// brought back into it.
pub open spec fn bounds_checked(entities: Map<EntityId, Components>) -> Map<EntityId, Components> {
    Map::new(
        |e: EntityId| entities.contains_key(e),
        |e: EntityId|
            if is_kept_in_field(entities[e]) {
                brought_back(entities[e])
            } else {
                entities[e]
            },
    )
}

fn keep_in(v: i32, extent: i32, length: i32) -> (kept: i32)
    requires
        0 <= length <= 0x1000_0000,
    ensures
        kept == crate::components::clamp_i32(kept_in(v as int, extent as int, length as int)),
{
    let from_start: i64 = if v <= 0 {
        0
    } else {
        v as i64
    };
    let kept: i64 = if from_start + extent as i64 >= length as i64 - 1024 {
        length as i64 - extent as i64 - 1024
    } else {
        from_start
    };
    crate::components::clamp_to_i32(kept)
}

/// Brings every entity that has a position and extents, and is not free to
/// leave the play field, back into the play field.
pub fn boundary_checking(ecs: &mut World, _state: &mut State)
    ensures
        world_entities(*final(ecs)) == bounds_checked(world_entities(*old(ecs))),
        *final(_state) == *old(_state),
{
    let ids = entity_ids(ecs);
    let ghost before = world_entities(*ecs);
    let mut i: usize = 0;
    while i < ids.len()
        invariant
            i <= ids.len(),
            before == world_entities(*old(ecs)),
            lists_entities(ids@, before),
            world_entities(*ecs) =~= Map::new(
                |e: EntityId| before.contains_key(e),
                |e: EntityId|
                    if ids@.take(i as int).contains(e) && is_kept_in_field(before[e]) {
                        brought_back(before[e])
                    } else {
                        before[e]
                    },
            ),
        decreases ids.len() - i,
    {
        let entity = ids[i];
        proof {
            take_one_more(ids@, i as int);
            assert(ids@.contains(entity));
        }
        if !has_free_to_leave_play_field(ecs, entity) {
            match (transform_of(ecs, entity), shape_of(ecs, entity)) {
                (Some(transform), Some(shape)) => {
                    let moved = CTransform {
                        pos: Vec2 {
                            x: keep_in(transform.pos.x, shape.dims.x, FIELD_WIDTH),
                            y: keep_in(transform.pos.y, shape.dims.y, FIELD_HEIGHT),
                        },
                        rot: transform.rot,
                    };
                    set_transform(ecs, entity, moved);
                },
                _ => {},
            }
        }
        i += 1;
    }
    proof {
        assert(ids@.take(ids.len() as int) =~= ids@);
        assert(world_entities(*ecs) =~= bounds_checked(before));
    }
}

} // verus!

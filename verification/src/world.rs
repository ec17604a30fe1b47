//! Typed access to the entity world.
//!
//! The entities live in a `hecs::World`. Verified code never looks inside it:
//! it goes through the functions of this module, each of which makes one kind
//! of call into `hecs` and states what that call does to the world's contents.
//! Those statements are trusted, not proved.

use vstd::prelude::*;
use hecs::{Entity, World};
use crate::components::{
    Ball, BallEater, Block, Bouncy, CTransform, EntityId, FreeToLeavePlayField, HasRigidBody,
    Health, InputControlled, OwnedBy, Paddle, Physics, Player, PositionManaged, Shape, StrongBlock,
    VelocityManaged, Wall,
};

verus! {

#[verifier::external_type_specification]
#[verifier::external_body]
pub struct ExWorld(World);

/// What one entity carries, as far as the rules of the game read it.
pub struct Components {
    pub transform: Option<CTransform>,
    pub shape: Option<Shape>,
    pub physics: Option<Physics>,
    pub health: Option<Health>,
    pub block: Option<Block>,
    pub wall: Option<Wall>,
    pub paddle: Option<Paddle>,
    pub owned_by: Option<OwnedBy>,
    pub ball: bool,
    pub strong_block: bool,
    pub ball_eater: bool,
    pub has_rigid_body: bool,
    pub velocity_managed: bool,
    pub position_managed: bool,
    pub bouncy: bool,
    pub input_controlled: bool,
    pub player: bool,
    pub free_to_leave_play_field: bool,
}

/// The entities of a world, each with what it carries: the entities that
/// were spawned and not removed since, and those that are reserved and not
/// yet spawned, which carry nothing.
pub uninterp spec fn world_entities(world: World) -> Map<EntityId, Components>;

/// The spawned entities of a world in the order in which the world hands them out.
pub uninterp spec fn world_order(world: World) -> Seq<EntityId>;

/// `ids` lists entities of `entities`, none twice and every one that carries
/// anything.
pub open spec fn lists_entities(ids: Seq<EntityId>, entities: Map<EntityId, Components>) -> bool {
    &&& ids.no_duplicates()
    &&& forall|entity: EntityId| #[trigger] ids.contains(entity) ==> entities.contains_key(entity)
    &&& forall|entity: EntityId| #[trigger]
        entities.contains_key(entity) && entities[entity] != bare() ==> ids.contains(entity)
}

/// An entity that carries nothing.
pub open spec fn bare() -> Components {
    Components {
        transform: None,
        shape: None,
        physics: None,
        health: None,
        block: None,
        wall: None,
        paddle: None,
        owned_by: None,
        ball: false,
        strong_block: false,
        ball_eater: false,
        has_rigid_body: false,
        velocity_managed: false,
        position_managed: false,
        bouncy: false,
        input_controlled: false,
        player: false,
        free_to_leave_play_field: false,
    }
}

/// What a wall carries.
pub open spec fn wall_parts(transform: CTransform, shape: Shape, wall: Wall) -> Components {
    Components {
        transform: Some(transform),
        shape: Some(shape),
        wall: Some(wall),
        has_rigid_body: true,
        ..bare()
    }
}

/// What a ball-eating wall carries.
pub open spec fn ball_eater_parts(transform: CTransform, shape: Shape, wall: Wall) -> Components {
    Components { ball_eater: true, ..wall_parts(transform, shape, wall) }
}

/// What a ball carries.
pub open spec fn ball_parts(
    transform: CTransform,
    physics: Physics,
    owned_by: OwnedBy,
    shape: Shape,
) -> Components {
    Components {
        transform: Some(transform),
        shape: Some(shape),
        physics: Some(physics),
        owned_by: Some(owned_by),
        ball: true,
        bouncy: true,
        has_rigid_body: true,
        velocity_managed: true,
        ..bare()
    }
}

/// What an ordinary block carries.
pub open spec fn block_parts(
    transform: CTransform,
    shape: Shape,
    block: Block,
    health: Health,
) -> Components {
    Components {
        transform: Some(transform),
        shape: Some(shape),
        block: Some(block),
        health: Some(health),
        has_rigid_body: true,
        ..bare()
    }
}

/// What a strong block carries.
pub open spec fn strong_block_parts(
    transform: CTransform,
    shape: Shape,
    block: Block,
    health: Health,
) -> Components {
    Components { strong_block: true, ..block_parts(transform, shape, block, health) }
}

/// What a paddle carries.
pub open spec fn paddle_parts(
    transform: CTransform,
    physics: Physics,
    paddle: Paddle,
    shape: Shape,
) -> Components {
    Components {
        transform: Some(transform),
        shape: Some(shape),
        physics: Some(physics),
        paddle: Some(paddle),
        input_controlled: true,
        player: true,
        has_rigid_body: true,
        position_managed: true,
        ..bare()
    }
}

/// A ball takes its velocity to the physics world, a paddle its position;
/// neither does both, and walls and blocks never move.
pub proof fn bodies_are_managed_one_way(
    transform: CTransform,
    physics: Physics,
    owned_by: OwnedBy,
    paddle: Paddle,
    shape: Shape,
    wall: Wall,
    block: Block,
    health: Health,
)
    ensures
        ball_parts(transform, physics, owned_by, shape).velocity_managed,
        !ball_parts(transform, physics, owned_by, shape).position_managed,
        paddle_parts(transform, physics, paddle, shape).position_managed,
        !paddle_parts(transform, physics, paddle, shape).velocity_managed,
        !wall_parts(transform, shape, wall).velocity_managed,
        !wall_parts(transform, shape, wall).position_managed,
        !block_parts(transform, shape, block, health).velocity_managed,
        !block_parts(transform, shape, block, health).position_managed,
{
}

/// The first `i + 1` items of a sequence are the first `i` and the item at
/// `i`, which is none of the first `i` where the sequence repeats nothing.
pub proof fn take_one_more(s: Seq<EntityId>, i: int)
    requires
        0 <= i < s.len(),
    ensures
        forall|e: EntityId| #[trigger]
            s.take(i + 1).contains(e) <==> s.take(i).contains(e) || e == s[i],
        s.no_duplicates() ==> !s.take(i).contains(s[i]),
{
    assert forall|e: EntityId| #[trigger]
        s.take(i + 1).contains(e) <==> s.take(i).contains(e) || e == s[i] by {
        if s.take(i).contains(e) {
            let j = choose|j: int| 0 <= j < i && s.take(i)[j] == e;
            assert(s.take(i + 1)[j] == e);
        }
        if e == s[i] {
            assert(s.take(i + 1)[i] == e);
        }
    }
}

/// `World::spawn` with the components of a wall. The new entity was not in
/// the world before, and nothing else in the world changes.
#[verifier::external_body]
pub(crate) fn spawn_wall_entity(
    world: &mut World,
    transform: CTransform,
    shape: Shape,
    wall: Wall,
) -> (entity: EntityId)
    ensures
        !world_entities(*old(world)).contains_key(entity),
        world_entities(*final(world)) == world_entities(*old(world)).insert(
            entity,
            wall_parts(transform, shape, wall),
        ),
{
    world.spawn((transform, shape, wall, HasRigidBody)).to_bits().get()
}

/// `World::spawn` with the components of a ball-eating wall.
#[verifier::external_body]
pub(crate) fn spawn_ball_eater_entity(
    world: &mut World,
    transform: CTransform,
    shape: Shape,
    wall: Wall,
) -> (entity: EntityId)
    ensures
        !world_entities(*old(world)).contains_key(entity),
        world_entities(*final(world)) == world_entities(*old(world)).insert(
            entity,
            ball_eater_parts(transform, shape, wall),
        ),
{
    world.spawn((transform, shape, wall, HasRigidBody, BallEater)).to_bits().get()
}

/// `World::spawn` with the components of a ball.
#[verifier::external_body]
pub(crate) fn spawn_ball_entity(
    world: &mut World,
    transform: CTransform,
    physics: Physics,
    owned_by: OwnedBy,
    shape: Shape,
) -> (entity: EntityId)
    ensures
        !world_entities(*old(world)).contains_key(entity),
        world_entities(*final(world)) == world_entities(*old(world)).insert(
            entity,
            ball_parts(transform, physics, owned_by, shape),
        ),
{
    let parts = (Ball, transform, physics, owned_by, shape, Bouncy, HasRigidBody, VelocityManaged);
    world.spawn(parts).to_bits().get()
}

/// `World::spawn` with the components of an ordinary block.
#[verifier::external_body]
pub(crate) fn spawn_block_entity(
    world: &mut World,
    transform: CTransform,
    shape: Shape,
    block: Block,
    health: Health,
) -> (entity: EntityId)
    ensures
        !world_entities(*old(world)).contains_key(entity),
        world_entities(*final(world)) == world_entities(*old(world)).insert(
            entity,
            block_parts(transform, shape, block, health),
        ),
{
    world.spawn((transform, shape, block, health, HasRigidBody)).to_bits().get()
}

/// `World::spawn` with the components of a strong block.
#[verifier::external_body]
pub(crate) fn spawn_strong_block_entity(
    world: &mut World,
    transform: CTransform,
    shape: Shape,
    block: Block,
    health: Health,
) -> (entity: EntityId)
    ensures
        !world_entities(*old(world)).contains_key(entity),
        world_entities(*final(world)) == world_entities(*old(world)).insert(
            entity,
            strong_block_parts(transform, shape, block, health),
        ),
{
    world.spawn((transform, shape, block, health, HasRigidBody, StrongBlock)).to_bits().get()
}

/// `World::spawn` with the components of a paddle.
#[verifier::external_body]
pub(crate) fn spawn_paddle_entity(
    world: &mut World,
    transform: CTransform,
    physics: Physics,
    paddle: Paddle,
    shape: Shape,
) -> (entity: EntityId)
    ensures
        !world_entities(*old(world)).contains_key(entity),
        world_entities(*final(world)) == world_entities(*old(world)).insert(
            entity,
            paddle_parts(transform, physics, paddle, shape),
        ),
{
    let parts =
        (transform, physics, InputControlled, Player, paddle, shape, HasRigidBody, PositionManaged);
    world.spawn(parts).to_bits().get()
}

/// `World::despawn`: the entity leaves the world if it was in it; the result
/// says whether it was.
#[verifier::external_body]
pub(crate) fn despawn(world: &mut World, entity: EntityId) -> (removed: bool)
    ensures
        removed == world_entities(*old(world)).contains_key(entity),
        world_entities(*final(world)) == world_entities(*old(world)).remove(entity),
{
    match Entity::from_bits(entity) {
        Some(e) => world.despawn(e).is_ok(),
        None => false,
    }
}

/// `World::clear`: no entity stays.
#[verifier::external_body]
pub(crate) fn clear(world: &mut World)
    ensures
        world_entities(*final(world)) =~= Map::empty(),
{
    world.clear()
}

/// `World::iter`: every spawned entity once, in the world's order. An entity
/// that is only reserved is not among them.
#[verifier::external_body]
pub(crate) fn entity_ids(world: &World) -> (ids: Vec<EntityId>)
    ensures
        ids@ == world_order(*world),
        lists_entities(ids@, world_entities(*world)),
{
    world.iter().map(|e| e.entity().to_bits().get()).collect()
}

/// `World::satisfies` for `&Ball`.
#[verifier::external_body]
pub(crate) fn has_ball(world: &World, entity: EntityId) -> (b: bool)
    ensures
        b == (world_entities(*world).contains_key(entity) && world_entities(*world)[entity].ball),
{
    match Entity::from_bits(entity) {
        Some(e) => world.satisfies::<&Ball>(e).unwrap_or(false),
        None => false,
    }
}

/// `World::satisfies` for `&Block`.
#[verifier::external_body]
pub(crate) fn has_block(world: &World, entity: EntityId) -> (b: bool)
    ensures
        b == (world_entities(*world).contains_key(entity)
            && world_entities(*world)[entity].block is Some),
{
    match Entity::from_bits(entity) {
        Some(e) => world.satisfies::<&Block>(e).unwrap_or(false),
        None => false,
    }
}

/// `World::satisfies` for `&StrongBlock`.
#[verifier::external_body]
pub(crate) fn has_strong_block(world: &World, entity: EntityId) -> (b: bool)
    ensures
        b == (world_entities(*world).contains_key(entity)
            && world_entities(*world)[entity].strong_block),
{
    match Entity::from_bits(entity) {
        Some(e) => world.satisfies::<&StrongBlock>(e).unwrap_or(false),
        None => false,
    }
}

/// `World::satisfies` for `&Paddle`.
#[verifier::external_body]
pub(crate) fn has_paddle(world: &World, entity: EntityId) -> (b: bool)
    ensures
        b == (world_entities(*world).contains_key(entity)
            && world_entities(*world)[entity].paddle is Some),
{
    match Entity::from_bits(entity) {
        Some(e) => world.satisfies::<&Paddle>(e).unwrap_or(false),
        None => false,
    }
}

/// `World::satisfies` for `&Wall`.
#[verifier::external_body]
pub(crate) fn has_wall(world: &World, entity: EntityId) -> (b: bool)
    ensures
        b == (world_entities(*world).contains_key(entity)
            && world_entities(*world)[entity].wall is Some),
{
    match Entity::from_bits(entity) {
        Some(e) => world.satisfies::<&Wall>(e).unwrap_or(false),
        None => false,
    }
}

/// `World::satisfies` for `&BallEater`.
#[verifier::external_body]
pub(crate) fn has_ball_eater(world: &World, entity: EntityId) -> (b: bool)
    ensures
        b == (world_entities(*world).contains_key(entity)
            && world_entities(*world)[entity].ball_eater),
{
    match Entity::from_bits(entity) {
        Some(e) => world.satisfies::<&BallEater>(e).unwrap_or(false),
        None => false,
    }
}

/// `World::satisfies` for `&HasRigidBody`.
#[verifier::external_body]
pub(crate) fn has_rigid_body(world: &World, entity: EntityId) -> (b: bool)
    ensures
        b == (world_entities(*world).contains_key(entity)
            && world_entities(*world)[entity].has_rigid_body),
{
    match Entity::from_bits(entity) {
        Some(e) => world.satisfies::<&HasRigidBody>(e).unwrap_or(false),
        None => false,
    }
}

/// `World::satisfies` for `&FreeToLeavePlayField`.
#[verifier::external_body]
pub(crate) fn has_free_to_leave_play_field(world: &World, entity: EntityId) -> (b: bool)
    ensures
        b == (world_entities(*world).contains_key(entity)
            && world_entities(*world)[entity].free_to_leave_play_field),
{
    match Entity::from_bits(entity) {
        Some(e) => world.satisfies::<&FreeToLeavePlayField>(e).unwrap_or(false),
        None => false,
    }
}

/// What `entity` holds under `field`, if it is in the world.
pub open spec fn part<T>(
    world: World,
    entity: EntityId,
    field: spec_fn(Components) -> Option<T>,
) -> Option<T> {
    if world_entities(world).contains_key(entity) {
        field(world_entities(world)[entity])
    } else {
        None
    }
}

/// `World::get` for `&Health`: a copy of the component, if the entity is in
/// the world and has one.
#[verifier::external_body]
pub(crate) fn health_of(world: &World, entity: EntityId) -> (health: Option<Health>)
    ensures
        health == part(*world, entity, |c: Components| c.health),
{
    match Entity::from_bits(entity) {
        Some(e) => match world.get::<&Health>(e) {
            Ok(h) => Some(*h),
            Err(_) => None,
        },
        None => None,
    }
}

/// `World::get` for `&Physics`.
#[verifier::external_body]
pub(crate) fn physics_of(world: &World, entity: EntityId) -> (physics: Option<Physics>)
    ensures
        physics == part(*world, entity, |c: Components| c.physics),
{
    match Entity::from_bits(entity) {
        Some(e) => match world.get::<&Physics>(e) {
            Ok(p) => Some(*p),
            Err(_) => None,
        },
        None => None,
    }
}

/// `World::get` for `&CTransform`.
#[verifier::external_body]
pub(crate) fn transform_of(world: &World, entity: EntityId) -> (transform: Option<CTransform>)
    ensures
        transform == part(*world, entity, |c: Components| c.transform),
{
    match Entity::from_bits(entity) {
        Some(e) => match world.get::<&CTransform>(e) {
            Ok(t) => Some(*t),
            Err(_) => None,
        },
        None => None,
    }
}

/// `World::get` for `&Shape`.
#[verifier::external_body]
pub(crate) fn shape_of(world: &World, entity: EntityId) -> (shape: Option<Shape>)
    ensures
        shape == part(*world, entity, |c: Components| c.shape),
{
    match Entity::from_bits(entity) {
        Some(e) => match world.get::<&Shape>(e) {
            Ok(s) => Some(*s),
            Err(_) => None,
        },
        None => None,
    }
}

/// `World::get` for `&Block`.
#[verifier::external_body]
pub(crate) fn block_of(world: &World, entity: EntityId) -> (block: Option<Block>)
    ensures
        block == part(*world, entity, |c: Components| c.block),
{
    match Entity::from_bits(entity) {
        Some(e) => match world.get::<&Block>(e) {
            Ok(b) => Some(*b),
            Err(_) => None,
        },
        None => None,
    }
}

/// `World::query_one_mut` for `&mut Health`: overwrites the component where
/// the entity is in the world and has one, and changes nothing otherwise; the
/// result says which.
#[verifier::external_body]
pub(crate) fn set_health(world: &mut World, entity: EntityId, health: Health) -> (done: bool)
    ensures
        done == (part(*old(world), entity, |c: Components| c.health) is Some),
        world_entities(*final(world)) == if done {
            world_entities(*old(world)).insert(
                entity,
                Components { health: Some(health), ..world_entities(*old(world))[entity] },
            )
        } else {
            world_entities(*old(world))
        },
{
    match Entity::from_bits(entity) {
        Some(e) => match world.query_one_mut::<&mut Health>(e) {
            Ok(h) => {
                *h = health;
                true
            },
            Err(_) => false,
        },
        None => false,
    }
}

/// `World::query_one_mut` for `&mut Physics`.
#[verifier::external_body]
pub(crate) fn set_physics(world: &mut World, entity: EntityId, physics: Physics) -> (done: bool)
    ensures
        done == (part(*old(world), entity, |c: Components| c.physics) is Some),
        world_entities(*final(world)) == if done {
            world_entities(*old(world)).insert(
                entity,
                Components { physics: Some(physics), ..world_entities(*old(world))[entity] },
            )
        } else {
            world_entities(*old(world))
        },
{
    match Entity::from_bits(entity) {
        Some(e) => match world.query_one_mut::<&mut Physics>(e) {
            Ok(p) => {
                *p = physics;
                true
            },
            Err(_) => false,
        },
        None => false,
    }
}

/// `World::query_one_mut` for `&mut CTransform`.
#[verifier::external_body]
pub(crate) fn set_transform(world: &mut World, entity: EntityId, transform: CTransform) -> (done:
    bool)
    ensures
        done == (part(*old(world), entity, |c: Components| c.transform) is Some),
        world_entities(*final(world)) == if done {
            world_entities(*old(world)).insert(
                entity,
                Components { transform: Some(transform), ..world_entities(*old(world))[entity] },
            )
        } else {
            world_entities(*old(world))
        },
{
    match Entity::from_bits(entity) {
        Some(e) => match world.query_one_mut::<&mut CTransform>(e) {
            Ok(t) => {
                *t = transform;
                true
            },
            Err(_) => false,
        },
        None => false,
    }
}

} // verus!

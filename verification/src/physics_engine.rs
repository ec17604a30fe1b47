//! The adapter between the entity world and the rigid-body physics world.
//!
//! It owns the physics world's sets, keeps the one-to-one mapping between
//! entities and their bodies, advances the simulation and collects the
//! collision events of a step. The physics world itself is `rapier2d`; what is
//! stated of calls into it is trusted, not proved.

use vstd::prelude::*;
use vstd::multiset::Multiset;
use std::collections::HashMap;
use rapier2d::crossbeam::channel::{Receiver, unbounded};
use rapier2d::prelude::{
    BroadPhase, CCDSolver, ChannelEventCollector, ColliderHandle, ColliderSet, ContactForceEvent,
    ImpulseJointSet, IntegrationParameters, IslandManager, MultibodyJointSet, NarrowPhase,
    PhysicsPipeline, Real, RigidBodyHandle, RigidBodySet, Vector,
};
use crate::components::{EntityId, Vec2};

verus! {

broadcast use vstd::std_specs::hash::group_hash_axioms;

// The types of the physics world. Verified code carries their values from
// one call to the next and never looks inside.

#[verifier::external_type_specification]
#[verifier::external_body]
pub struct ExIntegrationParameters(IntegrationParameters);

#[verifier::external_type_specification]
#[verifier::external_body]
pub struct ExPhysicsPipeline(PhysicsPipeline);

#[verifier::external_type_specification]
#[verifier::external_body]
pub struct ExIslandManager(IslandManager);

#[verifier::external_type_specification]
#[verifier::external_body]
pub struct ExBroadPhase(BroadPhase);

#[verifier::external_type_specification]
#[verifier::external_body]
pub struct ExNarrowPhase(NarrowPhase);

#[verifier::external_type_specification]
#[verifier::external_body]
pub struct ExImpulseJointSet(ImpulseJointSet);

#[verifier::external_type_specification]
#[verifier::external_body]
pub struct ExMultibodyJointSet(MultibodyJointSet);

#[verifier::external_type_specification]
#[verifier::external_body]
pub struct ExCCDSolver(CCDSolver);

#[verifier::external_type_specification]
#[verifier::external_body]
pub struct ExRigidBodySet(RigidBodySet);

#[verifier::external_type_specification]
#[verifier::external_body]
pub struct ExColliderSet(ColliderSet);

#[verifier::external_type_specification]
#[verifier::external_body]
pub struct ExChannelEventCollector(ChannelEventCollector);

#[verifier::external_type_specification]
#[verifier::external_body]
pub struct ExContactForceEvent(ContactForceEvent);

#[verifier::external_type_specification]
#[verifier::external_body]
pub struct ExRapierCollisionEvent(rapier2d::prelude::CollisionEvent);

#[verifier::external_type_specification]
#[verifier::external_body]
#[verifier::reject_recursive_types(T)]
pub struct ExReceiver<T>(Receiver<T>);

#[verifier::external_type_specification]
#[verifier::external_body]
#[verifier::reject_recursive_types(T)]
#[verifier::reject_recursive_types(R)]
#[verifier::reject_recursive_types(C)]
#[verifier::reject_recursive_types(S)]
pub struct ExMatrix<T, R, C, S>(rapier2d::na::Matrix<T, R, C, S>);

#[verifier::external_type_specification]
#[verifier::external_body]
pub struct ExConst<const N: usize>(rapier2d::na::Const<N>);

#[verifier::external_type_specification]
#[verifier::external_body]
#[verifier::reject_recursive_types(T)]
pub struct ExArrayStorage<T, const R: usize, const C: usize>(rapier2d::na::ArrayStorage<T, R, C>);

/// Handle of a rigid body of the physics world: its slot and the slot's generation.
#[derive(Clone, Copy, Debug, PartialEq, Eq, Structural)]
pub struct BodyHandle {
    pub index: u32,
    pub generation: u32,
}

impl BodyHandle {
    /// The handle as one number: the slot in the upper half, the generation in the lower.
    pub open spec fn key(self) -> u64 {
        (self.index as int * 0x1_0000_0000 + self.generation as int) as u64
    }

    /// Two handles have one key only where they are one handle.
    pub proof fn key_is_injective(a: BodyHandle, b: BodyHandle)
        ensures
            a.key() == b.key() <==> a == b,
    {
    }

    fn to_key(&self) -> (key: u64)
        ensures
            key == self.key(),
    {
        let index: u64 = self.index as u64;
        let generation: u64 = self.generation as u64;
        index * 0x1_0000_0000 + generation
    }
}

/// Handle of a collider of the physics world: its slot and the slot's generation.
#[derive(Clone, Copy, Debug, PartialEq, Eq, Structural)]
pub struct ColliderId {
    pub index: u32,
    pub generation: u32,
}

/// Two colliders started or stopped touching during a step.
#[derive(Clone, Copy, Debug, PartialEq, Eq, Structural)]
pub struct ContactEvent {
    pub started: bool,
    pub collider1: ColliderId,
    pub collider2: ColliderId,
}

/// How the physics world moves a body.
#[derive(Clone, Copy, Debug, PartialEq, Eq, Structural)]
pub enum BodyKind {
    /// Never moves.
    Fixed,
    /// Placed by the game each step.
    KinematicPositionBased,
    /// Moved by the simulation.
    Dynamic,
}

/// What the physics world needs to know to create the body and the box
/// collider of one entity. Lengths are in length units.
#[derive(Clone, Copy, Debug, PartialEq, Eq, Structural)]
pub struct BodyDescriptor {
    pub kind: BodyKind,
    /// Where the body's origin starts.
    pub translation: Vec2,
    /// Initial linear velocity, per second.
    pub velocity: Vec2,
    /// Half the width and half the height of the collider.
    pub half_extents: Vec2,
    /// Restitution in thousandths.
    pub restitution: u32,
    /// Friction in thousandths; `None` leaves the physics world's default.
    pub friction: Option<u32>,
    /// Mass in millionths; `None` leaves the physics world's default.
    pub mass: Option<u32>,
    /// The body never rotates and loses no speed to damping.
    pub free_flight: bool,
    /// Continuous collision detection: without it a fast ball passes through thin blocks.
    pub ccd_enabled: bool,
    /// A sleeping body would fall out of step with the game, so no body may sleep.
    pub can_sleep: bool,
    /// The collider reports the start and end of its contacts.
    pub collision_events: bool,
}

/// A body that the physics world is asked to create for `entity`.
#[derive(Clone, Copy, Debug, PartialEq, Eq, Structural)]
pub struct BodyRequest {
    pub entity: EntityId,
    pub descriptor: BodyDescriptor,
}

/// For each collider of a set that is attached to a body, that body.
pub uninterp spec fn collider_parents(colliders: ColliderSet) -> Map<ColliderId, BodyHandle>;

/// The bodies of a set, by their handles.
pub uninterp spec fn body_handles(bodies: RigidBodySet) -> Set<BodyHandle>;

/// The collision events that were sent into a channel and not yet received
/// from it, each with its collider handles as plain numbers. The channel
/// promises no order, so they are counted, not ranked.
pub uninterp spec fn waiting_events(channel: Receiver<rapier2d::prelude::CollisionEvent>) -> Multiset<
    ContactEvent,
>;

/// `PhysicsPipeline::new`: a pipeline; nothing is stated of it.
pub assume_specification[ PhysicsPipeline::new ]() -> (pipeline: PhysicsPipeline);

/// `IslandManager::new`: an island manager; nothing is stated of it.
pub assume_specification[ IslandManager::new ]() -> (islands: IslandManager);

/// `BroadPhase::new`: a broad phase; nothing is stated of it.
pub assume_specification[ BroadPhase::new ]() -> (broad_phase: BroadPhase);

/// `NarrowPhase::new`: a narrow phase; nothing is stated of it.
pub assume_specification[ NarrowPhase::new ]() -> (narrow_phase: NarrowPhase);

/// `ImpulseJointSet::new`: a set of joints; nothing is stated of it.
pub assume_specification[ ImpulseJointSet::new ]() -> (joints: ImpulseJointSet);

/// `MultibodyJointSet::new`: a set of joints; nothing is stated of it.
pub assume_specification[ MultibodyJointSet::new ]() -> (joints: MultibodyJointSet);

/// `CCDSolver::new`: a solver; nothing is stated of it.
pub assume_specification[ CCDSolver::new ]() -> (solver: CCDSolver);

/// `RigidBodySet::new`: a set without bodies.
pub assume_specification[ RigidBodySet::new ]() -> (bodies: RigidBodySet)
    ensures
        body_handles(bodies) =~= Set::empty(),
;

/// `ColliderSet::new`: a set without colliders.
pub assume_specification[ ColliderSet::new ]() -> (colliders: ColliderSet)
    ensures
        collider_parents(colliders) =~= Map::empty(),
;

/// `IntegrationParameters::default`: the physics world's own parameters; nothing is
/// stated of them.
pub assume_specification[ <IntegrationParameters as Default>::default ]() -> (parameters:
    IntegrationParameters);

/// `Vector::zeros`: the gravity of a world without gravity; nothing is stated of it.
#[verifier::external_body]
fn no_gravity() -> (gravity: Vector<Real>) {
    Vector::zeros()
}

/// `crossbeam::channel::unbounded`, twice, and `ChannelEventCollector::new`
/// on the sending ends: a collector and the two ends it fills.
#[verifier::external_body]
fn event_channels() -> (channels: (
    ChannelEventCollector,
    Receiver<rapier2d::prelude::CollisionEvent>,
    Receiver<ContactForceEvent>,
)) {
    let (collision_send, collision_recv) = unbounded();
    let (contact_force_send, contact_force_recv) = unbounded();
    (ChannelEventCollector::new(collision_send, contact_force_send), collision_recv, contact_force_recv)
}

/// `PhysicsPipeline::step`: one step of the simulation, without query
/// pipeline or hooks. Nothing is stated of what it leaves in the sets. The
/// step sends the collision events that it finds through `events` into the
/// channel whose receiving end is `channel`; nothing is stated of what waits
/// there afterwards.
#[verifier::external_body]
fn run_pipeline(
    pipeline: &mut PhysicsPipeline,
    gravity: &Vector<Real>,
    parameters: &IntegrationParameters,
    islands: &mut IslandManager,
    broad_phase: &mut BroadPhase,
    narrow_phase: &mut NarrowPhase,
    bodies: &mut RigidBodySet,
    colliders: &mut ColliderSet,
    impulse_joints: &mut ImpulseJointSet,
    multibody_joints: &mut MultibodyJointSet,
    ccd_solver: &mut CCDSolver,
    events: &ChannelEventCollector,
    channel: &mut Receiver<rapier2d::prelude::CollisionEvent>,
) {
    pipeline.step(
        gravity, parameters, islands, broad_phase, narrow_phase, bodies, colliders,
        impulse_joints, multibody_joints, ccd_solver, None, &(), events,
    );
}

/// `Receiver::try_recv`: takes one of the waiting events out of the channel
/// and hands it out, with its collider handles as plain numbers; where no
/// event waits, nothing is handed out and the channel stays as it is.
#[verifier::external_body]
fn next_event(channel: &mut Receiver<rapier2d::prelude::CollisionEvent>) -> (event: Option<
    ContactEvent,
>)
    ensures
        match event {
            Some(e) => waiting_events(*old(channel)).contains(e) && waiting_events(*final(channel))
                == waiting_events(*old(channel)).remove(e),
            None => waiting_events(*old(channel)).len() == 0 && waiting_events(*final(channel))
                == waiting_events(*old(channel)),
        },
{
    match channel.try_recv() {
        Ok(event) => {
            let (index1, generation1) = event.collider1().into_raw_parts();
            let (index2, generation2) = event.collider2().into_raw_parts();
            let collider1 = ColliderId { index: index1, generation: generation1 };
            let collider2 = ColliderId { index: index2, generation: generation2 };
            Some(ContactEvent { started: event.started(), collider1, collider2 })
        },
        Err(_) => None,
    }
}

/// `ColliderSet::get` and `Collider::parent`: the body that a collider is
/// attached to, if the collider is in the set and has one.
#[verifier::external_body]
fn collider_parent(colliders: &ColliderSet, collider: ColliderId) -> (parent: Option<BodyHandle>)
    ensures
        parent == if collider_parents(*colliders).contains_key(collider) {
            Some(collider_parents(*colliders)[collider])
        } else {
            None
        },
{
    let handle = ColliderHandle::from_raw_parts(collider.index, collider.generation);
    match colliders.get(handle).and_then(|c| c.parent()) {
        Some(body) => {
            let (index, generation) = body.into_raw_parts();
            Some(BodyHandle { index, generation })
        },
        None => None,
    }
}

/// `RigidBodySet::remove`, attached colliders included: the body leaves the
/// set of bodies, and no other body does. Nothing is stated of what is left
/// in the other sets.
#[verifier::external_body]
fn remove_body(
    bodies: &mut RigidBodySet,
    islands: &mut IslandManager,
    colliders: &mut ColliderSet,
    impulse_joints: &mut ImpulseJointSet,
    multibody_joints: &mut MultibodyJointSet,
    body: BodyHandle,
)
    ensures
        body_handles(*final(bodies)) == body_handles(*old(bodies)).remove(body),
{
    let handle = RigidBodyHandle::from_raw_parts(body.index, body.generation);
    bodies.remove(handle, islands, colliders, impulse_joints, multibody_joints, true);
}

/// The one-to-one mapping between entities and their bodies, kept in both
/// directions.
pub struct BodyLinks {
    ecs_to_rigid_body: HashMap<u64, BodyHandle>,
    rigid_body_to_ecs: HashMap<u64, EntityId>,
}

pub struct PhysicsEngine {
    pub links: BodyLinks,
    pub gravity: Vector<Real>,
    pub integration_parameters: IntegrationParameters,
    pub physics_pipeline: PhysicsPipeline,
    pub island_manager: IslandManager,
    pub broad_phase: BroadPhase,
    pub narrow_phase: NarrowPhase,
    pub impulse_joint_set: ImpulseJointSet,
    pub multibody_joint_set: MultibodyJointSet,
    pub ccd_solver: CCDSolver,
    pub collision_recv: Receiver<rapier2d::prelude::CollisionEvent>,
    pub contact_force_recv: Receiver<ContactForceEvent>,
    pub event_handler: ChannelEventCollector,
    /// The collision events of the latest step.
    pub collision_events: Vec<ContactEvent>,
    /// Bodies that entities were given and that the physics world has yet to create.
    pub body_requests: Vec<BodyRequest>,
    pub rigid_body_set: RigidBodySet,
    pub collider_set: ColliderSet,
}

/// `mapping` after `entity` was given `body`: whoever had that body before loses it.
pub open spec fn with_mapping(
    mapping: Map<EntityId, BodyHandle>,
    entity: EntityId,
    body: BodyHandle,
) -> Map<EntityId, BodyHandle> {
    Map::new(
        |e: EntityId| e == entity || (mapping.contains_key(e) && mapping[e] != body),
        |e: EntityId| if e == entity { body } else { mapping[e] },
    )
}

/// The entity that `mapping` gives `body` to, if any.
pub open spec fn owner_of(mapping: Map<EntityId, BodyHandle>, body: BodyHandle) -> Option<EntityId> {
    if exists|e: EntityId| mapping.contains_key(e) && mapping[e] == body {
        Some(choose|e: EntityId| mapping.contains_key(e) && mapping[e] == body)
    } else {
        None
    }
}

/// The entity whose body carries `collider`, if there is one.
pub open spec fn resolved(
    mapping: Map<EntityId, BodyHandle>,
    parents: Map<ColliderId, BodyHandle>,
    collider: ColliderId,
) -> Option<EntityId> {
    if parents.contains_key(collider) {
        owner_of(mapping, parents[collider])
    } else {
        None
    }
}

/// The bodies that `mapping` gives to the entities of `entities`.
pub open spec fn bodies_of(mapping: Map<EntityId, BodyHandle>, entities: Set<EntityId>) -> Set<
    BodyHandle,
> {
    Set::new(
        |body: BodyHandle|
            exists|e: EntityId|
                entities.contains(e) && mapping.contains_key(e) && #[trigger] mapping[e] == body,
    )
}

/// One more entity has one more body, if it has a body at all.
pub proof fn bodies_of_one_more(
    mapping: Map<EntityId, BodyHandle>,
    entities: Set<EntityId>,
    entity: EntityId,
)
    ensures
        bodies_of(mapping, entities.insert(entity)) == if mapping.contains_key(entity) {
            bodies_of(mapping, entities).insert(mapping[entity])
        } else {
            bodies_of(mapping, entities)
        },
{
    let more = bodies_of(mapping, entities.insert(entity));
    let fewer = bodies_of(mapping, entities);
    assert forall|b: BodyHandle| more.contains(b) <==> fewer.contains(b) || (mapping.contains_key(
        entity,
    ) && mapping[entity] == b) by {
        if more.contains(b) {
            let e = choose|e: EntityId|
                entities.insert(entity).contains(e) && mapping.contains_key(e)
                    && #[trigger] mapping[e] == b;
            if e != entity {
                assert(entities.contains(e));
            }
        }
        if fewer.contains(b) {
            let e = choose|e: EntityId|
                entities.contains(e) && mapping.contains_key(e) && #[trigger] mapping[e] == b;
            assert(entities.insert(entity).contains(e));
        }
        if mapping.contains_key(entity) && mapping[entity] == b {
            assert(entities.insert(entity).contains(entity));
        }
    }
    if mapping.contains_key(entity) {
        assert(more =~= fewer.insert(mapping[entity]));
    } else {
        assert(more =~= fewer);
    }
}

/// No two entities of `mapping` share a body.
pub open spec fn one_to_one(mapping: Map<EntityId, BodyHandle>) -> bool {
    forall|a: EntityId, b: EntityId|
        mapping.contains_key(a) && mapping.contains_key(b) && mapping[a] == mapping[b] ==> a == b
}

impl BodyLinks {
    /// The body of each entity that has one.
    pub closed spec fn mapping(&self) -> Map<EntityId, BodyHandle> {
        self.ecs_to_rigid_body@
    }

    /// The two directions of the mapping agree.
    #[verifier::type_invariant]
    closed spec fn wf(&self) -> bool {
        &&& forall|e: EntityId| #[trigger]
            self.ecs_to_rigid_body@.contains_key(e) ==> {
                let key = self.ecs_to_rigid_body@[e].key();
                self.rigid_body_to_ecs@.contains_key(key) && self.rigid_body_to_ecs@[key] == e
            }
        &&& forall|key: u64| #[trigger]
            self.rigid_body_to_ecs@.contains_key(key) ==> {
                let e = self.rigid_body_to_ecs@[key];
                self.ecs_to_rigid_body@.contains_key(e) && self.ecs_to_rigid_body@[e].key() == key
            }
    }

    /// Shows that no two entities share a body. It does nothing when run.
    pub fn share_no_body(&self)
        ensures
            one_to_one(self.mapping()),
    {
        proof {
            use_type_invariant(self);
        }
    }

    /// No entity has a body.
    pub fn new() -> (links: Self)
        ensures
            links.mapping() =~= Map::empty(),
    {
        BodyLinks { ecs_to_rigid_body: HashMap::new(), rigid_body_to_ecs: HashMap::new() }
    }

    /// Gives `entity` the body `physics_handle`. An entity has one body and a
    /// body one entity: an earlier body of the entity and an earlier entity of
    /// the body are forgotten.
    pub fn set(&mut self, ecs_entity: EntityId, physics_handle: BodyHandle)
        ensures
            final(self).mapping() == with_mapping(old(self).mapping(), ecs_entity, physics_handle),
    {
        proof {
            use_type_invariant(&*self);
        }
        let mut links = BodyLinks::new();
        std::mem::swap(&mut links, self);
        let BodyLinks { ecs_to_rigid_body: mut forward, rigid_body_to_ecs: mut backward } = links;
        let key = physics_handle.to_key();
        let earlier_body: Option<BodyHandle> = match forward.get(&ecs_entity) {
            Some(body) => Some(*body),
            None => None,
        };
        if let Some(body) = earlier_body {
            let earlier_key = body.to_key();
            backward.remove(&earlier_key);
        }
        let earlier_entity: Option<EntityId> = match backward.get(&key) {
            Some(entity) => Some(*entity),
            None => None,
        };
        if let Some(entity) = earlier_entity {
            forward.remove(&entity);
        }
        forward.insert(ecs_entity, physics_handle);
        backward.insert(key, ecs_entity);
        assert(forward@ =~= with_mapping(old(self).mapping(), ecs_entity, physics_handle)) by {
            assert forall|e: EntityId|
                old(self).ecs_to_rigid_body@.contains_key(e) && old(self).ecs_to_rigid_body@[e]
                    == physics_handle implies e == ecs_entity || earlier_entity == Some(e) by {
                if earlier_body is Some {
                    BodyHandle::key_is_injective(earlier_body->0, physics_handle);
                }
            }
        }
        assert forall|e: EntityId| #[trigger] forward@.contains_key(e) implies {
            let k = forward@[e].key();
            backward@.contains_key(k) && backward@[k] == e
        } by {
            if e != ecs_entity {
                BodyHandle::key_is_injective(forward@[e], physics_handle);
                if earlier_body is Some {
                    BodyHandle::key_is_injective(forward@[e], earlier_body->0);
                }
            }
        }
        *self = BodyLinks { ecs_to_rigid_body: forward, rigid_body_to_ecs: backward };
    }

    /// Forgets the body of `entity`. An entity without a body is left as it is.
    pub fn remove(&mut self, ecs_entity: EntityId)
        ensures
            final(self).mapping() == old(self).mapping().remove(ecs_entity),
    {
        proof {
            use_type_invariant(&*self);
        }
        let mut links = BodyLinks::new();
        std::mem::swap(&mut links, self);
        let BodyLinks { ecs_to_rigid_body: mut forward, rigid_body_to_ecs: mut backward } = links;
        let earlier_body: Option<BodyHandle> = match forward.get(&ecs_entity) {
            Some(body) => Some(*body),
            None => None,
        };
        if let Some(body) = earlier_body {
            let key = body.to_key();
            backward.remove(&key);
            forward.remove(&ecs_entity);
            assert forall|e: EntityId| #[trigger] forward@.contains_key(e) implies {
                let k = forward@[e].key();
                backward@.contains_key(k) && backward@[k] == e
            } by {
                BodyHandle::key_is_injective(forward@[e], body);
            }
        }
        assert(forward@ =~= old(self).mapping().remove(ecs_entity));
        *self = BodyLinks { ecs_to_rigid_body: forward, rigid_body_to_ecs: backward };
    }

    /// The body of `entity`, if it has one.
    pub fn body_of(&self, ecs_entity: EntityId) -> (handle: Option<BodyHandle>)
        ensures
            handle == if self.mapping().contains_key(ecs_entity) {
                Some(self.mapping()[ecs_entity])
            } else {
                None
            },
    {
        match self.ecs_to_rigid_body.get(&ecs_entity) {
            Some(body) => Some(*body),
            None => None,
        }
    }

    /// The entity that has the body `physics_handle`, if any has.
    pub fn entity_of(&self, physics_handle: BodyHandle) -> (entity: Option<EntityId>)
        ensures
            entity == owner_of(self.mapping(), physics_handle),
    {
        proof {
            use_type_invariant(self);
        }
        let key = physics_handle.to_key();
        let entity = match self.rigid_body_to_ecs.get(&key) {
            Some(entity) => Some(*entity),
            None => None,
        };
        proof {
            match entity {
                Some(e) => {
                    BodyHandle::key_is_injective(self.ecs_to_rigid_body@[e], physics_handle);
                    let other = choose|e: EntityId|
                        self.mapping().contains_key(e) && self.mapping()[e] == physics_handle;
                    assert(other == e);
                },
                None => {},
            }
        }
        entity
    }
}

impl PhysicsEngine {
    /// The body of each entity that has one.
    pub open spec fn mapping(&self) -> Map<EntityId, BodyHandle> {
        self.links.mapping()
    }

    /// The bodies of the physics world.
    pub open spec fn bodies(&self) -> Set<BodyHandle> {
        body_handles(self.rigid_body_set)
    }

    /// The collision events that the physics world has sent and that were
    /// not collected yet.
    pub open spec fn waiting(&self) -> Multiset<ContactEvent> {
        waiting_events(self.collision_recv)
    }

    /// An empty physics world without gravity.
    pub fn new() -> (engine: Self)
        ensures
            engine.mapping() =~= Map::empty(),
            engine.bodies() =~= Set::empty(),
            collider_parents(engine.collider_set) =~= Map::empty(),
            engine.collision_events@ =~= Seq::empty(),
            engine.body_requests@ =~= Seq::empty(),
    {
        let (event_handler, collision_recv, contact_force_recv) = event_channels();
        Self {
            links: BodyLinks::new(),
            gravity: no_gravity(),
            integration_parameters: IntegrationParameters::default(),
            physics_pipeline: PhysicsPipeline::new(),
            island_manager: IslandManager::new(),
            broad_phase: BroadPhase::new(),
            narrow_phase: NarrowPhase::new(),
            impulse_joint_set: ImpulseJointSet::new(),
            multibody_joint_set: MultibodyJointSet::new(),
            ccd_solver: CCDSolver::new(),
            collision_recv,
            contact_force_recv,
            event_handler,
            collision_events: Vec::new(),
            body_requests: Vec::new(),
            rigid_body_set: RigidBodySet::new(),
            collider_set: ColliderSet::new(),
        }
    }

    /// Advances the simulation by one fixed interval. The mapping and the
    /// buffers of the adapter are untouched.
    pub fn step(&mut self)
        ensures
            final(self).links == old(self).links,
            final(self).collision_events == old(self).collision_events,
            final(self).body_requests == old(self).body_requests,
    {
        run_pipeline(
            &mut self.physics_pipeline,
            &self.gravity,
            &self.integration_parameters,
            &mut self.island_manager,
            &mut self.broad_phase,
            &mut self.narrow_phase,
            &mut self.rigid_body_set,
            &mut self.collider_set,
            &mut self.impulse_joint_set,
            &mut self.multibody_joint_set,
            &mut self.ccd_solver,
            &self.event_handler,
            &mut self.collision_recv,
        );
    }

    /// Gives `entity` the body `physics_handle`. An entity has one body and a
    /// body one entity: an earlier body of the entity and an earlier entity of
    /// the body are forgotten.
    pub fn set_rigid_body_mapping(&mut self, ecs_entity: EntityId, physics_handle: BodyHandle)
        ensures
            final(self).mapping() == with_mapping(old(self).mapping(), ecs_entity, physics_handle),
            *final(self) == (PhysicsEngine { links: final(self).links, ..*old(self) }),
    {
        self.links.set(ecs_entity, physics_handle);
    }

    /// Forgets the body of `entity`. An entity without a body is left as it is.
    pub fn remove_rigid_body_mapping(&mut self, ecs_entity: EntityId)
        ensures
            final(self).mapping() == old(self).mapping().remove(ecs_entity),
            *final(self) == (PhysicsEngine { links: final(self).links, ..*old(self) }),
    {
        self.links.remove(ecs_entity);
    }

    /// The body of `entity`, if it has one.
    pub fn get_rigid_body_handle(&self, ecs_entity: EntityId) -> (handle: Option<BodyHandle>)
        ensures
            handle == if self.mapping().contains_key(ecs_entity) {
                Some(self.mapping()[ecs_entity])
            } else {
                None
            },
    {
        self.links.body_of(ecs_entity)
    }

    /// The entity that has the body `physics_handle`, if any has.
    pub fn get_entity_from_rigid_body_handle(&self, physics_handle: BodyHandle) -> (entity: Option<
        EntityId,
    >)
        ensures
            entity == owner_of(self.mapping(), physics_handle),
    {
        self.links.entity_of(physics_handle)
    }

    /// The entity whose body `collider` is attached to; `None` where the
    /// collider is gone, hangs on no body, or its body belongs to no entity.
    pub fn resolve_entity(&self, collider: ColliderId) -> (entity: Option<EntityId>)
        ensures
            entity == self.spec_resolve_entity(collider),
    {
        match collider_parent(&self.collider_set, collider) {
            Some(body) => self.get_entity_from_rigid_body_handle(body),
            None => None,
        }
    }

    /// The entity whose body `collider` is attached to.
    pub open spec fn spec_resolve_entity(&self, collider: ColliderId) -> Option<EntityId> {
        resolved(self.mapping(), collider_parents(self.collider_set), collider)
    }

    /// Asks for a body for `entity`: the request waits in `body_requests`
    /// until the physics world has created the body.
    pub fn spawn_body(&mut self, entity: EntityId, descriptor: BodyDescriptor)
        ensures
            final(self).body_requests@ == old(self).body_requests@.push(
                BodyRequest { entity, descriptor },
            ),
            *final(self) == (PhysicsEngine { body_requests: final(self).body_requests, ..*old(self) }),
    {
        self.body_requests.push(BodyRequest { entity, descriptor });
    }

    /// Removes the body of `entity` and its colliders from the physics world
    /// and forgets the mapping. The result is the body that was removed;
    /// an entity without a body changes nothing.
    pub fn remove_body(&mut self, entity: EntityId) -> (removed: Option<BodyHandle>)
        ensures
            removed == if old(self).mapping().contains_key(entity) {
                Some(old(self).mapping()[entity])
            } else {
                None
            },
            final(self).mapping() == old(self).mapping().remove(entity),
            final(self).bodies() == match removed {
                Some(body) => old(self).bodies().remove(body),
                None => old(self).bodies(),
            },
            final(self).collision_events == old(self).collision_events,
            final(self).body_requests == old(self).body_requests,
            !old(self).mapping().contains_key(entity) ==> *final(self) == *old(self),
    {
        match self.get_rigid_body_handle(entity) {
            Some(body) => {
                self.remove_rigid_body_mapping(entity);
                self::remove_body(
                    &mut self.rigid_body_set,
                    &mut self.island_manager,
                    &mut self.collider_set,
                    &mut self.impulse_joint_set,
                    &mut self.multibody_joint_set,
                    body,
                );
                Some(body)
            },
            None => {
                assert(old(self).mapping().remove(entity) =~= old(self).mapping());
                None
            },
        }
    }

    /// Collects the collision events that wait in the channel: afterwards the
    /// buffer holds exactly those events, each as often as it waited, and
    /// none waits any more. What the buffer held before is dropped. Nothing
    /// else changes.
    pub fn drain_collision_events(&mut self)
        ensures
            drained(*old(self), *final(self)),
    {
        broadcast use vstd::multiset::group_multiset_axioms;

        self.collision_events.clear();
        proof {
            self.collision_events@.to_multiset_ensures();
            vstd::multiset::lemma_multiset_empty_len(self.collision_events@.to_multiset());
        }
        loop
            invariant
                *self == (PhysicsEngine {
                    collision_events: self.collision_events,
                    collision_recv: self.collision_recv,
                    ..*old(self)
                }),
                self.collision_events@.to_multiset().add(self.waiting()) =~= old(self).waiting(),
            ensures
                drained(*old(self), *self),
            decreases self.waiting().len(),
        {
            let ghost buffered = self.collision_events@;
            let ghost waiting = self.waiting();
            match next_event(&mut self.collision_recv) {
                Some(event) => {
                    self.collision_events.push(event);
                    proof {
                        vstd::seq_lib::to_multiset_build(buffered, event);
                        assert(waiting.remove(event).len() < waiting.len());
                    }
                },
                None => {
                    assert(waiting =~= Multiset::empty());
                    break;
                },
            }
        }
    }
}

/// `after` is `before` after a step of the physics world, as far as the
/// adapter can tell: the mapping and the two buffers are as they were.
/// Where the bodies are, and which collision events wait, is the physics
/// world's doing.
pub open spec fn stepped(before: PhysicsEngine, after: PhysicsEngine) -> bool {
    &&& after.links == before.links
    &&& after.collision_events == before.collision_events
    &&& after.body_requests == before.body_requests
}

/// `after` is `before` after the waiting collision events were collected:
/// the buffer holds exactly the events that waited, each as often as it
/// waited, none waits any more, and nothing else differs.
pub open spec fn drained(before: PhysicsEngine, after: PhysicsEngine) -> bool {
    &&& after.collision_events@.to_multiset() =~= before.waiting()
    &&& after.waiting() =~= Multiset::empty()
    &&& after == (PhysicsEngine {
        collision_events: after.collision_events,
        collision_recv: after.collision_recv,
        ..before
    })
}

} // verus!

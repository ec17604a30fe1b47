use hecs::World;
use hecs_arkanoid::audio_playing::AudioCommand;
use hecs_arkanoid::components::{Color, EntityId, Health, Vec2};
use hecs_arkanoid::entity_archetypes::{spawn_ball, spawn_block, spawn_paddle};
use hecs_arkanoid::level_data::LevelTable;
use hecs_arkanoid::physics_engine::{
    BodyDescriptor, BodyHandle, BodyKind, BodyRequest, ColliderId, ContactEvent, PhysicsEngine,
};
use hecs_arkanoid::state::State;
use hecs_arkanoid::systems::playing::physics::{respond_to_collisions, step_physics};
use rapier2d::na::Vector2;
use rapier2d::prelude::{
    ActiveEvents, ColliderBuilder, ColliderHandle, CollisionEvent, CollisionEventFlags,
    EventHandler, RigidBodyBuilder,
};

fn meters(units: i32) -> f32 {
    units as f32 / 1024.0 / 120.0
}

fn px(x: i32, y: i32) -> Vec2 {
    Vec2::new(x * 1024, y * 1024)
}

fn create_bodies(state: &mut State) {
    let requests = std::mem::take(&mut state.physics.body_requests);
    for request in requests {
        let d = request.descriptor;
        let mut collider = ColliderBuilder::cuboid(meters(d.half_extents.x), meters(d.half_extents.y))
            .restitution(d.restitution as f32 / 1000.0);
        if let Some(friction) = d.friction {
            collider = collider.friction(friction as f32 / 1000.0);
        }
        if let Some(mass) = d.mass {
            collider = collider.mass(mass as f32 / 1_000_000.0);
        }
        if d.collision_events {
            collider = collider.active_events(ActiveEvents::COLLISION_EVENTS);
        }
        let builder = match d.kind {
            BodyKind::Fixed => RigidBodyBuilder::fixed(),
            BodyKind::KinematicPositionBased => RigidBodyBuilder::kinematic_position_based(),
            BodyKind::Dynamic => RigidBodyBuilder::dynamic(),
        };
        let mut builder = builder
            .translation(Vector2::new(meters(d.translation.x), meters(d.translation.y)))
            .linvel(Vector2::new(meters(d.velocity.x), meters(d.velocity.y)))
            .can_sleep(d.can_sleep)
            .ccd_enabled(d.ccd_enabled);
        if d.free_flight {
            builder = builder.lock_rotations().linear_damping(0.0).angular_damping(0.0);
        }
        let handle = state.physics.rigid_body_set.insert(builder.build());
        state.physics.collider_set.insert_with_parent(
            collider.build(),
            handle,
            &mut state.physics.rigid_body_set,
        );
        let (index, generation) = handle.into_raw_parts();
        state.physics.set_rigid_body_mapping(request.entity, BodyHandle { index, generation });
    }
}

fn handle(index: u32, generation: u32) -> BodyHandle {
    BodyHandle { index, generation }
}

#[test]
fn a_new_adapter_knows_no_body() {
    let engine = PhysicsEngine::new();
    assert_eq!(engine.get_rigid_body_handle(1), None);
    assert_eq!(engine.get_entity_from_rigid_body_handle(handle(0, 0)), None);
    assert_eq!(engine.resolve_entity(ColliderId { index: 0, generation: 0 }), None);
    assert!(engine.collision_events.is_empty());
    assert!(engine.body_requests.is_empty());
    assert_eq!(engine.rigid_body_set.len(), 0);
}

#[test]
fn the_mapping_works_in_both_directions() {
    let mut engine = PhysicsEngine::new();
    engine.set_rigid_body_mapping(7, handle(3, 1));
    engine.set_rigid_body_mapping(8, handle(1, 3));
    assert_eq!(engine.get_rigid_body_handle(7), Some(handle(3, 1)));
    assert_eq!(engine.get_rigid_body_handle(8), Some(handle(1, 3)));
    assert_eq!(engine.get_rigid_body_handle(9), None);
    assert_eq!(engine.get_entity_from_rigid_body_handle(handle(3, 1)), Some(7));
    assert_eq!(engine.get_entity_from_rigid_body_handle(handle(1, 3)), Some(8));
    assert_eq!(engine.get_entity_from_rigid_body_handle(handle(3, 3)), None);
}

#[test]
fn the_mapping_stays_one_to_one() {
    let mut engine = PhysicsEngine::new();
    engine.set_rigid_body_mapping(7, handle(3, 1));
    engine.set_rigid_body_mapping(7, handle(4, 1));
    assert_eq!(engine.get_rigid_body_handle(7), Some(handle(4, 1)));
    assert_eq!(engine.get_entity_from_rigid_body_handle(handle(3, 1)), None);
    assert_eq!(engine.get_entity_from_rigid_body_handle(handle(4, 1)), Some(7));

    engine.set_rigid_body_mapping(8, handle(4, 1));
    assert_eq!(engine.get_rigid_body_handle(7), None);
    assert_eq!(engine.get_rigid_body_handle(8), Some(handle(4, 1)));
    assert_eq!(engine.get_entity_from_rigid_body_handle(handle(4, 1)), Some(8));

    engine.set_rigid_body_mapping(8, handle(4, 1));
    assert_eq!(engine.get_rigid_body_handle(8), Some(handle(4, 1)));
    assert_eq!(engine.get_entity_from_rigid_body_handle(handle(4, 1)), Some(8));
}

#[test]
fn removing_a_mapping_is_idempotent() {
    let mut engine = PhysicsEngine::new();
    engine.set_rigid_body_mapping(7, handle(3, 1));
    engine.set_rigid_body_mapping(8, handle(u32::MAX, u32::MAX));
    engine.remove_rigid_body_mapping(7);
    assert_eq!(engine.get_rigid_body_handle(7), None);
    assert_eq!(engine.get_entity_from_rigid_body_handle(handle(3, 1)), None);
    assert_eq!(engine.get_rigid_body_handle(8), Some(handle(u32::MAX, u32::MAX)));
    engine.remove_rigid_body_mapping(7);
    engine.remove_rigid_body_mapping(99);
    assert_eq!(engine.get_entity_from_rigid_body_handle(handle(u32::MAX, u32::MAX)), Some(8));
}

#[test]
fn removing_a_body_without_mapping_is_a_no_op() {
    let mut engine = PhysicsEngine::new();
    assert_eq!(engine.remove_body(5), None);
    let body = engine.rigid_body_set.insert(RigidBodyBuilder::fixed().build());
    let (index, generation) = body.into_raw_parts();
    engine.set_rigid_body_mapping(5, handle(index, generation));
    assert_eq!(engine.rigid_body_set.len(), 1);
    assert_eq!(engine.remove_body(5), Some(handle(index, generation)));
    assert_eq!(engine.rigid_body_set.len(), 0);
    assert_eq!(engine.get_rigid_body_handle(5), None);
    assert_eq!(engine.remove_body(5), None);
}

#[test]
fn a_request_for_a_body_waits_in_its_queue() {
    let mut engine = PhysicsEngine::new();
    let descriptor = BodyDescriptor {
        kind: BodyKind::Fixed,
        translation: px(1, 2),
        velocity: px(0, 0),
        half_extents: px(3, 4),
        restitution: 1000,
        friction: None,
        mass: None,
        free_flight: false,
        ccd_enabled: false,
        can_sleep: false,
        collision_events: false,
    };
    engine.spawn_body(12, descriptor);
    assert_eq!(engine.body_requests, vec![BodyRequest { entity: 12, descriptor }]);
    assert_eq!(engine.get_rigid_body_handle(12), None);
}

fn hp_of(world: &World, entity: EntityId) -> u32 {
    world.get::<&Health>(hecs::Entity::from_bits(entity).unwrap()).unwrap().hp
}

#[test]
fn a_step_collects_the_contact_of_a_ball_with_a_block() {
    let grids = vec![[[0u8; 11]; 16]];
    let mut state = State::new(LevelTable::new(grids, [Color::white(); 10]).unwrap());
    let mut world = World::new();
    let paddle = spawn_paddle(&mut world, &mut state, px(100, 144), px(20, 8), Color::white());
    let block = spawn_block(&mut world, &mut state, px(100, 40), px(20, 8), Color::red(), 2);
    // the ball starts just below the block and flies up into it
    let ball = spawn_ball(&mut world, &mut state, px(110, 52), px(0, -100), paddle);
    create_bodies(&mut state);

    let mut steps = 0;
    while state.physics.collision_events.iter().all(|e| !e.started) {
        step_physics(&mut state);
        steps += 1;
        assert!(steps < 100);
    }
    let events = state.physics.collision_events.clone();
    assert_eq!(events.len(), 1);
    let a = state.physics.resolve_entity(events[0].collider1);
    let b = state.physics.resolve_entity(events[0].collider2);
    assert!(a == Some(ball) && b == Some(block) || a == Some(block) && b == Some(ball));

    respond_to_collisions(&mut world, &mut state);
    assert_eq!(hp_of(&world, block), 1);
    assert_eq!(state.audio_command_buffer, vec![AudioCommand::BallSturdyBlockBounce]);

    // the next step has no new contact: the buffer holds the events of the latest step only
    step_physics(&mut state);
    assert!(state.physics.collision_events.iter().all(|e| !e.started));
    assert!(state.physics.get_rigid_body_handle(ball).is_some());
}

fn collider(index: u32, generation: u32) -> ColliderId {
    ColliderId { index, generation }
}

/// Sends an event into the channel of the adapter, as a step of the physics world does.
fn send(engine: &PhysicsEngine, started: bool, a: ColliderId, b: ColliderId) {
    let a = ColliderHandle::from_raw_parts(a.index, a.generation);
    let b = ColliderHandle::from_raw_parts(b.index, b.generation);
    let event = if started {
        CollisionEvent::Started(a, b, CollisionEventFlags::empty())
    } else {
        CollisionEvent::Stopped(a, b, CollisionEventFlags::empty())
    };
    engine.event_handler.handle_collision_event(
        &engine.rigid_body_set,
        &engine.collider_set,
        event,
        None,
    );
}

fn sorted(mut events: Vec<ContactEvent>) -> Vec<(bool, u32, u32, u32, u32)> {
    let mut keys: Vec<(bool, u32, u32, u32, u32)> = events
        .drain(..)
        .map(|e| {
            (e.started, e.collider1.index, e.collider1.generation, e.collider2.index, e.collider2.generation)
        })
        .collect();
    keys.sort();
    keys
}

#[test]
fn draining_collects_exactly_what_waits() {
    let mut engine = PhysicsEngine::new();
    send(&engine, true, collider(1, 2), collider(3, 4));
    send(&engine, false, collider(3, 4), collider(1, 2));
    send(&engine, true, collider(1, 2), collider(3, 4));
    assert_eq!(engine.collision_recv.len(), 3);
    engine.drain_collision_events();
    assert_eq!(engine.collision_recv.len(), 0);
    let started = ContactEvent { started: true, collider1: collider(1, 2), collider2: collider(3, 4) };
    let stopped = ContactEvent { started: false, collider1: collider(3, 4), collider2: collider(1, 2) };
    assert_eq!(
        sorted(engine.collision_events.clone()),
        sorted(vec![started, stopped, started])
    );
}

#[test]
fn draining_drops_what_the_buffer_held() {
    let mut engine = PhysicsEngine::new();
    let stale = ContactEvent { started: true, collider1: collider(9, 9), collider2: collider(8, 8) };
    engine.collision_events = vec![stale, stale];
    engine.drain_collision_events();
    assert!(engine.collision_events.is_empty());

    send(&engine, true, collider(1, 0), collider(2, 0));
    engine.collision_events = vec![stale];
    engine.drain_collision_events();
    assert_eq!(
        engine.collision_events,
        vec![ContactEvent { started: true, collider1: collider(1, 0), collider2: collider(2, 0) }]
    );
    engine.drain_collision_events();
    assert!(engine.collision_events.is_empty());
}

#[test]
fn draining_touches_nothing_but_the_events() {
    let mut engine = PhysicsEngine::new();
    engine.set_rigid_body_mapping(7, handle(3, 1));
    let descriptor = BodyDescriptor {
        kind: BodyKind::Dynamic,
        translation: px(1, 2),
        velocity: px(0, 0),
        half_extents: px(3, 4),
        restitution: 1000,
        friction: Some(0),
        mass: Some(100),
        free_flight: true,
        ccd_enabled: true,
        can_sleep: false,
        collision_events: true,
    };
    engine.spawn_body(7, descriptor);
    engine.rigid_body_set.insert(RigidBodyBuilder::fixed().build());
    send(&engine, true, collider(1, 0), collider(2, 0));
    engine.drain_collision_events();
    assert_eq!(engine.get_rigid_body_handle(7), Some(handle(3, 1)));
    assert_eq!(engine.body_requests, vec![BodyRequest { entity: 7, descriptor }]);
    assert_eq!(engine.rigid_body_set.len(), 1);
    assert_eq!(engine.collision_events.len(), 1);
}

#[test]
fn a_step_leaves_no_event_waiting() {
    let grids = vec![[[0u8; 11]; 16]];
    let mut state = State::new(LevelTable::new(grids, [Color::white(); 10]).unwrap());
    let mut world = World::new();
    let paddle = spawn_paddle(&mut world, &mut state, px(100, 144), px(20, 8), Color::white());
    spawn_block(&mut world, &mut state, px(100, 40), px(20, 8), Color::red(), 2);
    let ball = spawn_ball(&mut world, &mut state, px(110, 52), px(0, -100), paddle);
    create_bodies(&mut state);
    send(&state.physics, false, collider(5, 5), collider(6, 6));
    let mut all = Vec::new();
    for _ in 0..20 {
        step_physics(&mut state);
        assert_eq!(state.physics.collision_recv.len(), 0);
        all.extend(state.physics.collision_events.iter().copied());
        assert_eq!(state.physics.get_rigid_body_handle(ball).is_some(), true);
        assert!(state.physics.body_requests.is_empty());
    }
    // what waited before the first step was collected with the events of that step
    let waited = ContactEvent { started: false, collider1: collider(5, 5), collider2: collider(6, 6) };
    assert_eq!(all.iter().filter(|e| **e == waited).count(), 1);
    assert_eq!(all.iter().filter(|e| e.started).count(), 1);
}

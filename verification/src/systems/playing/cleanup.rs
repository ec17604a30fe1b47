//! The end-of-tick pass that carries out the removals that collision
//! response asked for.

use vstd::prelude::*;
use hecs::World;
use crate::components::EntityId;
use crate::physics_engine::{
    bodies_of, bodies_of_one_more, one_to_one, owner_of, BodyHandle,
};
use crate::state::{DeletionEvent, State};
use crate::systems::playing::physics::scheduled;
use crate::world::{despawn, world_entities};

verus! {

/// The entities that `events` remove from the world.
pub open spec fn entities_to_remove(events: Seq<DeletionEvent>) -> Set<EntityId> {
    Set::new(|entity: EntityId| events.contains(DeletionEvent::Entity { entity }))
}

/// The entities whose bodies `events` remove from the physics world.
pub open spec fn bodies_to_remove(events: Seq<DeletionEvent>) -> Set<EntityId> {
    Set::new(|entity: EntityId| events.contains(DeletionEvent::Physics { entity }))
}

/// The bodies that are removed from the physics world while `events` are
/// carried out in order: for each entity that has a body, its body, once,
/// where the removal of its body is asked for first.
pub open spec fn removed_bodies(
    mapping: Map<EntityId, BodyHandle>,
    events: Seq<DeletionEvent>,
) -> Seq<BodyHandle>
    decreases events.len(),
{
    if events.len() == 0 {
        Seq::empty()
    } else {
        let earlier = removed_bodies(mapping, events.drop_last());
        match events.last() {
            DeletionEvent::Physics { entity } => if mapping.contains_key(entity)
                && !events.drop_last().contains(events.last()) {
                earlier.push(mapping[entity])
            } else {
                earlier
            },
            DeletionEvent::Entity { .. } => earlier,
        }
    }
}

/// Every removed body is the body of an entity whose body `events` remove,
/// and no body is removed twice.
pub proof fn removed_bodies_are_unique(mapping: Map<EntityId, BodyHandle>, events: Seq<DeletionEvent>)
    requires
        one_to_one(mapping),
    ensures
        removed_bodies(mapping, events).no_duplicates(),
        forall|body: BodyHandle| #[trigger]
            removed_bodies(mapping, events).contains(body) <==> exists|entity: EntityId|
                events.contains(DeletionEvent::Physics { entity }) && mapping.contains_key(entity)
                    && #[trigger] mapping[entity] == body,
    decreases events.len(),
{
    let removed = removed_bodies(mapping, events);
    if events.len() > 0 {
        let front = events.drop_last();
        let last = events.last();
        let earlier = removed_bodies(mapping, front);
        removed_bodies_are_unique(mapping, front);
        assert(events =~= front.push(last));
        assert forall|event: DeletionEvent| events.contains(event) <==> front.contains(event)
            || event == last by {
            if front.contains(event) {
                let i = choose|i: int| 0 <= i < front.len() && front[i] == event;
                assert(events[i] == event);
            }
            if event == last {
                assert(events[events.len() - 1] == event);
            }
        }
        assert forall|body: BodyHandle| #[trigger]
            removed.contains(body) <==> exists|entity: EntityId|
                events.contains(DeletionEvent::Physics { entity }) && mapping.contains_key(entity)
                    && #[trigger] mapping[entity] == body by {
            if removed.contains(body) {
                let i = choose|i: int| 0 <= i < removed.len() && removed[i] == body;
                if i < earlier.len() {
                    assert(earlier[i] == body);
                    assert(earlier.contains(body));
                    let entity = choose|entity: EntityId|
                        front.contains(DeletionEvent::Physics { entity }) && mapping.contains_key(
                            entity,
                        ) && #[trigger] mapping[entity] == body;
                    assert(events.contains(DeletionEvent::Physics { entity }));
                } else {
                    let entity = last->Physics_entity;
                    assert(events.contains(DeletionEvent::Physics { entity }));
                    assert(mapping[entity] == body);
                }
            }
            if exists|entity: EntityId|
                events.contains(DeletionEvent::Physics { entity }) && mapping.contains_key(entity)
                    && #[trigger] mapping[entity] == body {
                let entity = choose|entity: EntityId|
                    events.contains(DeletionEvent::Physics { entity }) && mapping.contains_key(
                        entity,
                    ) && #[trigger] mapping[entity] == body;
                if front.contains(DeletionEvent::Physics { entity }) {
                    assert(earlier.contains(body));
                    let i = choose|i: int| 0 <= i < earlier.len() && earlier[i] == body;
                    assert(removed[i] == body);
                } else {
                    assert(last == DeletionEvent::Physics { entity });
                    assert(removed == earlier.push(body));
                    assert(removed[earlier.len() as int] == body);
                }
            }
        }
        match last {
            DeletionEvent::Physics { entity } => {
                if mapping.contains_key(entity) && !front.contains(last) {
                    let body = mapping[entity];
                    if earlier.contains(body) {
                        let other = choose|other: EntityId|
                            front.contains(DeletionEvent::Physics { entity: other })
                                && mapping.contains_key(other) && #[trigger] mapping[other]
                                == body;
                        assert(other == entity);
                    }
                    assert(!earlier.contains(body));
                }
            },
            DeletionEvent::Entity { .. } => {},
        }
    }
}

/// Asking for the removal of an entity a second time changes nothing.
pub proof fn scheduling_is_idempotent(deletions: Seq<DeletionEvent>, entity: EntityId)
    ensures
        scheduled(scheduled(deletions, entity), entity) == scheduled(deletions, entity),
{
    crate::systems::playing::physics::scheduled_keeps_unique(deletions, entity);
}

/// Where the removal of an entity was asked for twice, its body is removed
/// from the physics world exactly once, whatever else waits: once if the
/// entity has a body, and never a second time.
pub proof fn removal_asked_twice_happens_once(
    mapping: Map<EntityId, BodyHandle>,
    waiting: Seq<DeletionEvent>,
    entity: EntityId,
)
    requires
        one_to_one(mapping),
    ensures
        ({
            let asked_twice = scheduled(scheduled(waiting, entity), entity);
            let removed = removed_bodies(mapping, asked_twice);
            &&& removed.no_duplicates()
            &&& mapping.contains_key(entity) ==> removed.contains(mapping[entity])
            &&& bodies_to_remove(asked_twice).contains(entity)
            &&& entities_to_remove(asked_twice).contains(entity)
        }),
{
    let asked_twice = scheduled(scheduled(waiting, entity), entity);
    scheduling_is_idempotent(waiting, entity);
    crate::systems::playing::physics::scheduled_keeps_unique(waiting, entity);
    removed_bodies_are_unique(mapping, asked_twice);
}

/// A body that was removed belongs to no entity afterwards: a collision
/// event that still names it leads to no entity and is skipped.
pub proof fn removed_body_has_no_owner(
    mapping: Map<EntityId, BodyHandle>,
    events: Seq<DeletionEvent>,
    body: BodyHandle,
)
    requires
        one_to_one(mapping),
        removed_bodies(mapping, events).contains(body),
    ensures
        owner_of(mapping.remove_keys(bodies_to_remove(events)), body) is None,
{
    removed_bodies_are_unique(mapping, events);
    let left = mapping.remove_keys(bodies_to_remove(events));
    let entity = choose|entity: EntityId|
        events.contains(DeletionEvent::Physics { entity }) && mapping.contains_key(entity)
            && #[trigger] mapping[entity] == body;
    assert forall|other: EntityId| left.contains_key(other) implies left[other] != body by {
        if mapping[other] == body {
            assert(other == entity);
            assert(bodies_to_remove(events).contains(entity));
        }
    }
}

/// Carries out the removals that wait, in order, and empties the queue. An
/// entity leaves the world; a body leaves the physics world together with
/// its mapping. A removal of what is already gone changes nothing. The
/// result lists the bodies that were removed from the physics world.
pub fn process_deletion_events(ecs: &mut World, state: &mut State) -> (removed: Vec<BodyHandle>)
    ensures
        final(state).deletion_events@ =~= Seq::empty(),
        world_entities(*final(ecs)) == world_entities(*old(ecs)).remove_keys(
            entities_to_remove(old(state).deletion_events@),
        ),
        final(state).physics.mapping() == old(state).physics.mapping().remove_keys(
            bodies_to_remove(old(state).deletion_events@),
        ),
        removed@ == removed_bodies(old(state).physics.mapping(), old(state).deletion_events@),
        removed@.no_duplicates(),
        final(state).physics.bodies() == old(state).physics.bodies().difference(
            bodies_of(old(state).physics.mapping(), bodies_to_remove(old(state).deletion_events@)),
        ),
        final(state).physics.collision_events == old(state).physics.collision_events,
        final(state).physics.body_requests == old(state).physics.body_requests,
        *final(state) == (State {
            physics: final(state).physics,
            deletion_events: final(state).deletion_events,
            ..*old(state)
        }),
{
    state.physics.links.share_no_body();
    let mut removed: Vec<BodyHandle> = Vec::new();
    let ghost events = state.deletion_events@;
    let ghost mapping = state.physics.mapping();
    let ghost entities = world_entities(*ecs);
    let ghost bodies = state.physics.bodies();
    let count = state.deletion_events.len();
    let mut i: usize = 0;
    proof {
        assert(events.take(0) =~= Seq::empty());
        assert(entities.remove_keys(entities_to_remove(events.take(0))) =~= entities);
        assert(mapping.remove_keys(bodies_to_remove(events.take(0))) =~= mapping);
        assert(bodies.difference(bodies_of(mapping, bodies_to_remove(events.take(0)))) =~= bodies);
    }
    while i < count
        invariant
            i <= count,
            count == events.len(),
            events == old(state).deletion_events@,
            mapping == old(state).physics.mapping(),
            entities == world_entities(*old(ecs)),
            state.deletion_events == old(state).deletion_events,
            state.physics.collision_events == old(state).physics.collision_events,
            state.physics.body_requests == old(state).physics.body_requests,
            *state == (State { physics: state.physics, ..*old(state) }),
            world_entities(*ecs) == entities.remove_keys(
                entities_to_remove(events.take(i as int)),
            ),
            state.physics.mapping() == mapping.remove_keys(
                bodies_to_remove(events.take(i as int)),
            ),
            removed@ == removed_bodies(mapping, events.take(i as int)),
            bodies == old(state).physics.bodies(),
            one_to_one(mapping),
            state.physics.bodies() == bodies.difference(
                bodies_of(mapping, bodies_to_remove(events.take(i as int))),
            ),
        decreases count - i,
    {
        let event = state.deletion_events[i];
        proof {
            let next = events.take(i + 1);
            let done = events.take(i as int);
            assert(next.drop_last() =~= done);
            assert(next.last() == event);
            assert forall|other: DeletionEvent| next.contains(other) <==> done.contains(other)
                || other == event by {
                if done.contains(other) {
                    let j = choose|j: int| 0 <= j < done.len() && done[j] == other;
                    assert(next[j] == other);
                }
                if other == event {
                    assert(next[i as int] == other);
                }
            }
        }
        match event {
            DeletionEvent::Entity { entity } => {
                despawn(ecs, entity);
                assert(world_entities(*ecs) =~= entities.remove_keys(
                    entities_to_remove(events.take(i + 1)),
                ));
                assert(bodies_to_remove(events.take(i + 1)) =~= bodies_to_remove(
                    events.take(i as int),
                ));
            },
            DeletionEvent::Physics { entity } => {
                let ghost earlier = bodies_to_remove(events.take(i as int));
                let ghost later = bodies_to_remove(events.take(i + 1));
                match state.physics.remove_body(entity) {
                    Some(body) => {
                        removed.push(body);
                    },
                    None => {},
                }
                proof {
                    assert(later =~= earlier.insert(entity));
                    bodies_of_one_more(mapping, earlier, entity);
                }
                assert(state.physics.bodies() =~= bodies.difference(bodies_of(mapping, later)));
                assert(state.physics.mapping() =~= mapping.remove_keys(
                    bodies_to_remove(events.take(i + 1)),
                ));
                assert(entities_to_remove(events.take(i + 1)) =~= entities_to_remove(
                    events.take(i as int),
                ));
            },
        }
        i += 1;
    }
    state.deletion_events.clear();
    proof {
        assert(events.take(count as int) =~= events);
        removed_bodies_are_unique(mapping, events);
    }
    removed
}

} // verus!

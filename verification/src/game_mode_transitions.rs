//! Entering a game mode.
//!
//! A change of mode is asked for by setting `next_game_mode` and carried
//! out at the start of the next tick, so that every stage of a tick sees one
//! mode. Entering a mode sets up what the mode needs: the title and the end
//! of a game clear the world, the preparation of a level builds it.

use vstd::prelude::*;
use hecs::World;
use crate::components::{Block, Color, CTransform, EntityId, Health, Paddle, Physics, Shape, Vec2};
use crate::entity_archetypes::{
    fixed_body, paddle_body, spawn_block, spawn_paddle, spawn_walls, wall_at, wall_request,
};
use crate::level_data::{BlockSpawn, level_layout, plan_of};
use crate::physics_engine::{
    bodies_of, bodies_of_one_more, collider_parents, BodyHandle, BodyRequest, PhysicsEngine,
};
use crate::state::{
    GameMode, GameOverMode, GameOverState, LevelCompleteMode, LevelCompleteState, PrepareLevelMode,
    PrepareLevelState, State, WinGameMode, WinGameState,
};
use crate::world::{
    block_parts, clear, Components, despawn, entity_ids, has_block, lists_entities, paddle_parts,
    take_one_more, world_entities,
};

verus! {

/// Ticks for which a mode shows its first sub-phase.
pub const ENTRY_DELAY: u32 = 60;

/// Where the paddle starts: 100 pixels from the left.
pub const PADDLE_START_X: i32 = 102_400;

/// Where the paddle starts: 144 pixels from the top.
pub const PADDLE_START_Y: i32 = 147_456;

/// Width of the paddle: 20 pixels.
pub const PADDLE_WIDTH: i32 = 20_480;

/// Height of the paddle: 8 pixels.
pub const PADDLE_HEIGHT: i32 = 8_192;

/// None of `entities` has a body in `mapping`.
pub open spec fn have_no_body(entities: Set<EntityId>, mapping: Map<EntityId, BodyHandle>) -> bool {
    forall|e: EntityId| entities.contains(e) ==> !(#[trigger] mapping.contains_key(e))
}

/// The blocks among `entities`, strong ones included.
pub open spec fn block_set(entities: Map<EntityId, Components>) -> Set<EntityId> {
    Set::new(|e: EntityId| entities.contains_key(e) && entities[e].block is Some)
}

/// What a block of a level carries.
pub open spec fn parts_of(block: BlockSpawn) -> Components {
    block_parts(
        CTransform { pos: block.pos, rot: Vec2 { x: 0, y: 1024 } },
        Shape { dims: block.shape },
        Block { color: block.color },
        Health { hp: block.hp },
    )
}

/// `base` with the first `n` blocks of `plan` as the entities `ids`.
pub open spec fn with_blocks(
    base: Map<EntityId, Components>,
    ids: Seq<EntityId>,
    plan: Seq<BlockSpawn>,
    n: nat,
) -> Map<EntityId, Components>
    decreases n,
{
    if n == 0 {
        base
    } else {
        with_blocks(base, ids, plan, (n - 1) as nat).insert(ids[n - 1], parts_of(plan[n - 1]))
    }
}

/// `base` with the requests for the bodies of the first `n` blocks of `plan`.
pub open spec fn with_block_requests(
    base: Seq<BodyRequest>,
    ids: Seq<EntityId>,
    plan: Seq<BlockSpawn>,
    n: nat,
) -> Seq<BodyRequest>
    decreases n,
{
    if n == 0 {
        base
    } else {
        with_block_requests(base, ids, plan, (n - 1) as nat).push(
            BodyRequest {
                entity: ids[n - 1],
                descriptor: fixed_body(plan[n - 1].pos, plan[n - 1].shape),
            },
        )
    }
}

/// The blocks of `before` among the first `n` entities of `ids`.
pub open spec fn blocks_among(
    ids: Seq<EntityId>,
    before: Map<EntityId, Components>,
    n: int,
) -> Set<EntityId> {
    Set::new(|e: EntityId| ids.take(n).contains(e) && before[e].block is Some)
}

/// Removes every block, strong ones included, from the world, and its body
/// from the physics world.
pub fn delete_all_blocks(ecs: &mut World, state: &mut State)
    ensures
        world_entities(*final(ecs)) == world_entities(*old(ecs)).remove_keys(
            block_set(world_entities(*old(ecs))),
        ),
        final(state).physics.mapping() == old(state).physics.mapping().remove_keys(
            block_set(world_entities(*old(ecs))),
        ),
        final(state).physics.bodies() == old(state).physics.bodies().difference(
            bodies_of(old(state).physics.mapping(), block_set(world_entities(*old(ecs)))),
        ),
        final(state).physics.collision_events == old(state).physics.collision_events,
        final(state).physics.body_requests == old(state).physics.body_requests,
        have_no_body(block_set(world_entities(*old(ecs))), old(state).physics.mapping())
            ==> final(state).physics == old(state).physics,
        *final(state) == (State { physics: final(state).physics, ..*old(state) }),
{
    let ids = entity_ids(ecs);
    let ghost before = world_entities(*ecs);
    let ghost mapping = state.physics.mapping();
    let ghost bodies = state.physics.bodies();
    let mut i: usize = 0;
    proof {
        let none = blocks_among(ids@, before, 0);
        assert(before.remove_keys(none) =~= before);
        assert(mapping.remove_keys(none) =~= mapping);
        assert(bodies.difference(bodies_of(mapping, none)) =~= bodies);
    }
    while i < ids.len()
        invariant
            i <= ids.len(),
            before == world_entities(*old(ecs)),
            mapping == old(state).physics.mapping(),
            lists_entities(ids@, before),
            state.physics.collision_events == old(state).physics.collision_events,
            state.physics.body_requests == old(state).physics.body_requests,
            *state == (State { physics: state.physics, ..*old(state) }),
            world_entities(*ecs) == before.remove_keys(blocks_among(ids@, before, i as int)),
            state.physics.mapping() == mapping.remove_keys(blocks_among(ids@, before, i as int)),
            bodies == old(state).physics.bodies(),
            state.physics.bodies() == bodies.difference(
                bodies_of(mapping, blocks_among(ids@, before, i as int)),
            ),
            have_no_body(block_set(before), mapping) ==> state.physics == old(state).physics,
        decreases ids.len() - i,
    {
        let entity = ids[i];
        proof {
            take_one_more(ids@, i as int);
            assert(ids@.contains(entity));
        }
        let ghost earlier = blocks_among(ids@, before, i as int);
        let ghost later = blocks_among(ids@, before, i + 1);
        if has_block(ecs, entity) {
            assert(block_set(before).contains(entity));
            state.physics.remove_body(entity);
            despawn(ecs, entity);
        }
        proof {
            if before[entity].block is Some {
                assert(later =~= earlier.insert(entity));
                bodies_of_one_more(mapping, earlier, entity);
            } else {
                assert(later =~= earlier);
            }
            assert(state.physics.bodies() =~= bodies.difference(bodies_of(mapping, later)));
            assert(world_entities(*ecs) =~= before.remove_keys(later));
            assert(state.physics.mapping() =~= mapping.remove_keys(later));
        }
        i += 1;
    }
    proof {
        assert(ids@.take(ids.len() as int) =~= ids@);
        assert(world_entities(*ecs) =~= before.remove_keys(block_set(before)));
        assert(state.physics.mapping() =~= mapping.remove_keys(block_set(before)));
        assert(blocks_among(ids@, before, ids.len() as int) =~= block_set(before));
    }
}

/// The blocks of `before` are gone, with their bodies, and the blocks of
/// `plan` stand in their place as the entities `blocks`: new entities, each a
/// different one, with a request for the body of each.
pub open spec fn blocks_are_replaced(
    physics_before: PhysicsEngine,
    physics: PhysicsEngine,
    before: Map<EntityId, Components>,
    entities: Map<EntityId, Components>,
    plan: Seq<BlockSpawn>,
    blocks: Seq<EntityId>,
) -> bool {
    let base = before.remove_keys(block_set(before));
    &&& physics.collision_events == physics_before.collision_events
    &&& physics.mapping() == physics_before.mapping().remove_keys(block_set(before))
    &&& physics.bodies() == physics_before.bodies().difference(
        bodies_of(physics_before.mapping(), block_set(before)),
    )
    &&& have_no_body(block_set(before), physics_before.mapping()) ==> physics == (PhysicsEngine {
        body_requests: physics.body_requests,
        ..physics_before
    })
    &&& blocks.len() == plan.len()
    &&& blocks.no_duplicates()
    &&& forall|i: int| 0 <= i < blocks.len() ==> !base.contains_key(#[trigger] blocks[i])
    &&& entities == with_blocks(base, blocks, plan, plan.len())
    &&& physics.body_requests@ == with_block_requests(
        physics_before.body_requests@,
        blocks,
        plan,
        plan.len(),
    )
}

/// Replaces the blocks of the world by those of the level `level`; a level
/// that the table does not have is replaced by the nearest that it has. The
/// result names the new blocks in the order of the level's layout.
pub fn spawn_level(ecs: &mut World, state: &mut State, level: u32) -> (blocks: Vec<EntityId>)
    ensures
        *final(state) == (State { physics: final(state).physics, ..*old(state) }),
        blocks_are_replaced(
            old(state).physics,
            final(state).physics,
            world_entities(*old(ecs)),
            world_entities(*final(ecs)),
            plan_of(old(state).levels, level),
            blocks@,
        ),
{
    delete_all_blocks(ecs, state);
    let plan = level_layout(&state.levels, level);
    let ghost base = world_entities(*ecs);
    let ghost requests = state.physics.body_requests@;
    let mut blocks: Vec<EntityId> = Vec::new();
    let mut i: usize = 0;
    while i < plan.len()
        invariant
            i <= plan.len(),
            blocks.len() == i,
            base == world_entities(*old(ecs)).remove_keys(block_set(world_entities(*old(ecs)))),
            requests == old(state).physics.body_requests@,
            state.levels == old(state).levels,
            *state == (State { physics: state.physics, ..*old(state) }),
            state.physics.collision_events == old(state).physics.collision_events,
            state.physics.mapping() == old(state).physics.mapping().remove_keys(
                block_set(world_entities(*old(ecs))),
            ),
            state.physics.bodies() == old(state).physics.bodies().difference(
                bodies_of(old(state).physics.mapping(), block_set(world_entities(*old(ecs)))),
            ),
            have_no_body(block_set(world_entities(*old(ecs))), old(state).physics.mapping())
                ==> state.physics == (PhysicsEngine {
                body_requests: state.physics.body_requests,
                ..old(state).physics
            }),
            blocks@.no_duplicates(),
            forall|j: int| 0 <= j < i ==> !base.contains_key(#[trigger] blocks[j]),
            forall|j: int| 0 <= j < i ==> world_entities(*ecs).contains_key(#[trigger] blocks[j]),
            world_entities(*ecs) == with_blocks(base, blocks@, plan@, i as nat),
            state.physics.body_requests@ == with_block_requests(requests, blocks@, plan@, i as nat),
        decreases plan.len() - i,
    {
        let block = plan[i];
        let ghost earlier = blocks@;
        proof {
            with_blocks_holds(base, earlier, plan@, i as nat);
        }
        let entity = spawn_block(ecs, state, block.pos, block.shape, block.color, block.hp);
        blocks.push(entity);
        proof {
            with_blocks_ignores_later(base, earlier, blocks@, plan@, i as nat);
            with_requests_ignores_later(requests, earlier, blocks@, plan@, i as nat);
            assert(blocks@.drop_last() =~= earlier);
        }
        i += 1;
    }
    blocks
}

/// `with_blocks` holds what `base` holds and the blocks it was given, and nothing else.
pub proof fn with_blocks_holds(
    base: Map<EntityId, Components>,
    ids: Seq<EntityId>,
    plan: Seq<BlockSpawn>,
    n: nat,
)
    requires
        n <= ids.len(),
    ensures
        forall|e: EntityId| #[trigger]
            with_blocks(base, ids, plan, n).contains_key(e) <==> base.contains_key(e) || exists|
                i: int,
            |
                0 <= i < n && ids[i] == e,
    decreases n,
{
    if n > 0 {
        with_blocks_holds(base, ids, plan, (n - 1) as nat);
        assert forall|e: EntityId| #[trigger]
            with_blocks(base, ids, plan, n).contains_key(e) <==> base.contains_key(e) || exists|
                i: int,
            |
                0 <= i < n && ids[i] == e by {
            if exists|i: int| 0 <= i < n && ids[i] == e {
                let i = choose|i: int| 0 <= i < n && ids[i] == e;
                if i < n - 1 {
                    assert(0 <= i < n - 1 && ids[i] == e);
                }
            }
            if with_blocks(base, ids, plan, (n - 1) as nat).contains_key(e) && !base.contains_key(
                e,
            ) {
                let i = choose|i: int| 0 <= i < n - 1 && ids[i] == e;
                assert(0 <= i < n && ids[i] == e);
            }
            if e == ids[n - 1] {
                assert(0 <= n - 1 < n && ids[n - 1] == e);
            }
        }
    }
}

/// The first `n` blocks depend on the first `n` names only.
pub proof fn with_blocks_ignores_later(
    base: Map<EntityId, Components>,
    a: Seq<EntityId>,
    b: Seq<EntityId>,
    plan: Seq<BlockSpawn>,
    n: nat,
)
    requires
        n <= a.len() <= b.len(),
        forall|i: int| 0 <= i < n ==> a[i] == b[i],
    ensures
        with_blocks(base, a, plan, n) == with_blocks(base, b, plan, n),
    decreases n,
{
    if n > 0 {
        with_blocks_ignores_later(base, a, b, plan, (n - 1) as nat);
    }
}

/// The first `n` requests depend on the first `n` names only.
pub proof fn with_requests_ignores_later(
    base: Seq<BodyRequest>,
    a: Seq<EntityId>,
    b: Seq<EntityId>,
    plan: Seq<BlockSpawn>,
    n: nat,
)
    requires
        n <= a.len() <= b.len(),
        forall|i: int| 0 <= i < n ==> a[i] == b[i],
    ensures
        with_block_requests(base, a, plan, n) == with_block_requests(base, b, plan, n),
    decreases n,
{
    if n > 0 {
        with_requests_ignores_later(base, a, b, plan, (n - 1) as nat);
    }
}

/// The entities that the preparation of a level creates.
pub struct LevelEntities {
    /// The walls above, below, left and right of the play field.
    pub walls: [EntityId; 4],
    pub paddle: EntityId,
    /// The blocks, in the order of the level's layout.
    pub blocks: Vec<EntityId>,
}

/// A physics adapter that holds nothing: no mapping, no event, no request.
pub open spec fn is_fresh(physics: PhysicsEngine) -> bool {
    &&& physics.mapping() =~= Map::empty()
    &&& physics.bodies() =~= Set::empty()
    &&& collider_parents(physics.collider_set) =~= Map::empty()
    &&& physics.collision_events@ =~= Seq::empty()
    &&& physics.body_requests@ =~= Seq::empty()
}

/// What the paddle carries when a level starts.
pub open spec fn first_paddle() -> Components {
    paddle_parts(
        CTransform {
            pos: Vec2 { x: PADDLE_START_X, y: PADDLE_START_Y },
            rot: Vec2 { x: 0, y: 0 },
        },
        Physics { vel: Vec2 { x: 0, y: 0 }, rot_vel: 0 },
        Paddle { size: 1 },
        Shape { dims: Vec2 { x: PADDLE_WIDTH, y: PADDLE_HEIGHT } },
    )
}

/// The world of a level before its blocks: the four walls and the paddle.
pub open spec fn field_of(walls: [EntityId; 4], paddle: EntityId) -> Map<EntityId, Components> {
    Map::<EntityId, Components>::empty().insert(walls[0], wall_at(0)).insert(
        walls[1],
        wall_at(1),
    ).insert(walls[2], wall_at(2)).insert(walls[3], wall_at(3)).insert(paddle, first_paddle())
}

/// The requests for the bodies of the four walls and the paddle.
pub open spec fn field_requests(walls: [EntityId; 4], paddle: EntityId) -> Seq<BodyRequest> {
    seq![
        wall_request(0, walls[0]),
        wall_request(1, walls[1]),
        wall_request(2, walls[2]),
        wall_request(3, walls[3]),
        BodyRequest {
            entity: paddle,
            descriptor: paddle_body(
                Vec2 { x: PADDLE_START_X, y: PADDLE_START_Y },
                Vec2 { x: PADDLE_WIDTH, y: PADDLE_HEIGHT },
            ),
        },
    ]
}

/// The world and the state hold the level `level` of `levels`, made of the
/// entities `made`, ready for its preparation: walls, paddle and blocks, each
/// a different entity; a request for the body of each, in the order of
/// creation; nothing else.
pub open spec fn level_is_set_up(
    state: State,
    entities: Map<EntityId, Components>,
    made: LevelEntities,
) -> bool {
    let plan = plan_of(state.levels, state.level);
    let field = field_of(made.walls, made.paddle);
    &&& state.prepare_level_state == (PrepareLevelState {
        mode: PrepareLevelMode::SpawnStuffIn,
        countdown: ENTRY_DELAY,
    })
    &&& state.physics.mapping() =~= Map::empty()
    &&& state.physics.bodies() =~= Set::empty()
    &&& collider_parents(state.physics.collider_set) =~= Map::empty()
    &&& state.physics.collision_events@ =~= Seq::empty()
    &&& state.deletion_events@ =~= Seq::empty()
    &&& forall|i: int, j: int| 0 <= i < j < 4 ==> made.walls[i] != made.walls[j]
    &&& forall|i: int| 0 <= i < 4 ==> made.walls[i] != made.paddle
    &&& made.blocks.len() == plan.len()
    &&& made.blocks@.no_duplicates()
    &&& forall|i: int| 0 <= i < made.blocks.len() ==> !field.contains_key(#[trigger] made.blocks[i])
    &&& entities == with_blocks(field, made.blocks@, plan, plan.len())
    &&& state.physics.body_requests@ == with_block_requests(
        field_requests(made.walls, made.paddle),
        made.blocks@,
        plan,
        plan.len(),
    )
}

/// The world is empty and the state holds nothing of an earlier level.
pub open spec fn all_is_cleared(state: State, entities: Map<EntityId, Components>) -> bool {
    &&& entities =~= Map::empty()
    &&& is_fresh(state.physics)
    &&& state.deletion_events@ =~= Seq::empty()
}

/// Enters the title: clears the world and the physics world, and starts a
/// new run at level 1.
pub fn title_init_state(ecs: &mut World, state: &mut State)
    ensures
        all_is_cleared(*final(state), world_entities(*final(ecs))),
        final(state).level == 1,
        *final(state) == (State {
            physics: final(state).physics,
            deletion_events: final(state).deletion_events,
            level: 1,
            ..*old(state)
        }),
{
    clear(ecs);
    state.physics = PhysicsEngine::new();
    state.deletion_events.clear();
    state.level = 1;
}

/// Enters the preparation of the current level: clears the world and the
/// physics world and builds the walls, the paddle and the blocks of the level.
pub fn prepare_level_init_state(ecs: &mut World, state: &mut State) -> (made: LevelEntities)
    ensures
        level_is_set_up(*final(state), world_entities(*final(ecs)), made),
        *final(state) == (State {
            prepare_level_state: final(state).prepare_level_state,
            physics: final(state).physics,
            deletion_events: final(state).deletion_events,
            ..*old(state)
        }),
{
    state.prepare_level_state.mode = PrepareLevelMode::SpawnStuffIn;
    state.prepare_level_state.countdown = ENTRY_DELAY;
    clear(ecs);
    state.physics = PhysicsEngine::new();
    state.deletion_events.clear();
    let walls = spawn_walls(ecs, state);
    let paddle = spawn_paddle(
        ecs,
        state,
        Vec2 { x: PADDLE_START_X, y: PADDLE_START_Y },
        Vec2 { x: PADDLE_WIDTH, y: PADDLE_HEIGHT },
        Color::white(),
    );
    let ghost field = world_entities(*ecs);
    let ghost mapping = state.physics.mapping();
    proof {
        assert(field =~= field_of(walls, paddle));
        assert(field.remove_keys(block_set(field)) =~= field);
        assert(state.physics.body_requests@ =~= field_requests(walls, paddle));
    }
    let level = state.level;
    let blocks = spawn_level(ecs, state, level);
    proof {
        assert(mapping.remove_keys(block_set(field)) =~= Map::empty());
        assert(state.physics.bodies() =~= Set::empty());
    }
    LevelEntities { walls, paddle, blocks }
}

/// Enters live play. Nothing is set up: the preparation left everything in place.
pub fn playing_init_state(ecs: &mut World, state: &mut State)
    ensures
        *final(state) == *old(state),
        *final(ecs) == *old(ecs),
{
}

/// Enters the completion of a level at its first announcement.
pub fn level_complete_init_state(ecs: &mut World, state: &mut State)
    ensures
        *final(ecs) == *old(ecs),
        *final(state) == (State {
            level_complete_state: LevelCompleteState {
                mode: LevelCompleteMode::Announce,
                countdown: ENTRY_DELAY,
            },
            ..*old(state)
        }),
{
    state.level_complete_state.mode = LevelCompleteMode::Announce;
    state.level_complete_state.countdown = ENTRY_DELAY;
}

/// Enters the end of a won game at its first announcement.
pub fn win_game_init_state(ecs: &mut World, state: &mut State)
    ensures
        *final(ecs) == *old(ecs),
        *final(state) == (State {
            win_game_state: WinGameState { mode: WinGameMode::Announce, countdown: ENTRY_DELAY },
            ..*old(state)
        }),
{
    state.win_game_state.mode = WinGameMode::Announce;
    state.win_game_state.countdown = ENTRY_DELAY;
}

/// Enters the end of a lost game at its first announcement: clears the world
/// and the physics world.
pub fn game_over_init_state(ecs: &mut World, state: &mut State)
    ensures
        all_is_cleared(*final(state), world_entities(*final(ecs))),
        *final(state) == (State {
            game_over_state: GameOverState { mode: GameOverMode::Announce, countdown: ENTRY_DELAY },
            physics: final(state).physics,
            deletion_events: final(state).deletion_events,
            ..*old(state)
        }),
{
    clear(ecs);
    state.physics = PhysicsEngine::new();
    state.deletion_events.clear();
    state.game_over_state.mode = GameOverMode::Announce;
    state.game_over_state.countdown = ENTRY_DELAY;
}

/// What entering `mode` leaves in the state and the world, given what was there.
pub open spec fn entered(
    mode: GameMode,
    before: State,
    after: State,
    world_before: World,
    world_after: World,
) -> bool {
    match mode {
        GameMode::Title => {
            &&& all_is_cleared(after, world_entities(world_after))
            &&& after == (State {
                physics: after.physics,
                deletion_events: after.deletion_events,
                level: 1,
                ..before
            })
        },
        GameMode::PrepareLevel => {
            &&& exists|made: LevelEntities|
                level_is_set_up(after, world_entities(world_after), made)
            &&& after == (State {
                prepare_level_state: after.prepare_level_state,
                physics: after.physics,
                deletion_events: after.deletion_events,
                ..before
            })
        },
        GameMode::Playing => after == before && world_after == world_before,
        GameMode::LevelComplete => {
            &&& world_after == world_before
            &&& after == (State {
                level_complete_state: LevelCompleteState {
                    mode: LevelCompleteMode::Announce,
                    countdown: ENTRY_DELAY,
                },
                ..before
            })
        },
        GameMode::WinGame => {
            &&& world_after == world_before
            &&& after == (State {
                win_game_state: WinGameState {
                    mode: WinGameMode::Announce,
                    countdown: ENTRY_DELAY,
                },
                ..before
            })
        },
        GameMode::GameOver => {
            &&& all_is_cleared(after, world_entities(world_after))
            &&& after == (State {
                game_over_state: GameOverState {
                    mode: GameOverMode::Announce,
                    countdown: ENTRY_DELAY,
                },
                physics: after.physics,
                deletion_events: after.deletion_events,
                ..before
            })
        },
    }
}

/// Entering a mode makes it the current one and leaves no request behind,
/// whatever the mode; the level table stays as it is.
pub proof fn entered_mode_is_current(
    mode: GameMode,
    before: State,
    after: State,
    world_before: World,
    world_after: World,
)
    requires
        entered(
            mode,
            State { game_mode: mode, next_game_mode: None, ..before },
            after,
            world_before,
            world_after,
        ),
    ensures
        after.game_mode == mode,
        after.next_game_mode is None,
        after.levels == before.levels,
{
}

/// Carries out the change of mode that was asked for, if one was: enters the
/// mode, makes it the current one and forgets the request. Without a request
/// nothing changes.
pub fn transition_game_mode(ecs: &mut World, state: &mut State)
    ensures
        match old(state).next_game_mode {
            Some(mode) => entered(
                mode,
                State { game_mode: mode, next_game_mode: None, ..*old(state) },
                *final(state),
                *old(ecs),
                *final(ecs),
            ),
            None => *final(state) == *old(state) && *final(ecs) == *old(ecs),
        },
{
    if let Some(transition_to) = state.next_game_mode {
        match transition_to {
            GameMode::Title => {
                title_init_state(ecs, state);
            },
            GameMode::PrepareLevel => {
                let made = prepare_level_init_state(ecs, state);
                assert(level_is_set_up(
                    State { game_mode: transition_to, next_game_mode: None, ..*state },
                    world_entities(*ecs),
                    made,
                ));
            },
            GameMode::Playing => {
                playing_init_state(ecs, state);
            },
            GameMode::LevelComplete => {
                level_complete_init_state(ecs, state);
            },
            GameMode::WinGame => {
                win_game_init_state(ecs, state);
            },
            GameMode::GameOver => {
                game_over_init_state(ecs, state);
            },
        }
        state.game_mode = transition_to;
        state.next_game_mode = None;
    }
}

} // verus!

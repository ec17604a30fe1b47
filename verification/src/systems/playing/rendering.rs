//! From the entities of the world to the draw commands of a tick.

use vstd::prelude::*;
use hecs::World;
use crate::components::{Color, EntityId, Vec2};
use crate::render_commands::{
    decimal, decimal_text, Drawing, drawings, drawings_of_push, join, RenderCommand,
};
use crate::state::State;
use crate::world::{
    block_of, Components, entity_ids, has_ball, has_ball_eater, has_paddle, has_strong_block,
    has_wall, health_of, physics_of, shape_of, transform_of, world_entities, world_order,
};

verus! {

/// The text that shows a velocity: its two coordinates in brackets.
pub open spec fn velocity_text(x: i32, y: i32) -> Seq<char> {
    "vel: ["@ + decimal_text(x as i64) + ", "@ + decimal_text(y as i64) + "]"@
}

/// The text that shows the number of a level.
pub open spec fn level_text(level: u32) -> Seq<char> {
    "Level: "@ + decimal_text(level as i64)
}

/// The text that shows a velocity.
fn velocity_label(x: i32, y: i32) -> (text: String)
    ensures
        text@ == velocity_text(x, y),
{
    let first = decimal(x as i64);
    let second = decimal(y as i64);
    let text = join("vel: [", first.as_str());
    let text = join(text.as_str(), ", ");
    let text = join(text.as_str(), second.as_str());
    join(text.as_str(), "]")
}

/// The text that shows the number of a level.
fn level_label(level: u32) -> (text: String)
    ensures
        text@ == level_text(level),
{
    let number = decimal(level as i64);
    join("Level: ", number.as_str())
}

/// Where the first velocity is shown: 20 pixels from the left and from the top.
pub const VELOCITY_TEXT_ORIGIN: i32 = 20_480;

/// From one shown velocity to the next: 10 pixels down.
pub const VELOCITY_TEXT_PITCH: i32 = 10_240;

/// Where the level is shown: 50 pixels from the right, 20 from the bottom.
pub const LEVEL_TEXT_X: i32 = 194_560;

/// Where the level is shown: 50 pixels from the right, 20 from the bottom.
pub const LEVEL_TEXT_Y: i32 = 143_360;

/// The passes of a rendering, in the order in which they are drawn.
#[derive(Clone, Copy, Debug, PartialEq, Eq, Structural)]
pub enum Pass {
    /// The velocity of each ball, as text.
    Velocities,
    Walls,
    Paddles,
    Blocks,
    Balls,
}

/// Where the velocity text number `k` is shown; past the reach of the
/// machine's integers it stays at their end.
pub open spec fn velocity_text_y(k: nat) -> i32 {
    let y = VELOCITY_TEXT_ORIGIN + VELOCITY_TEXT_PITCH * k;
    if y > i32::MAX {
        i32::MAX
    } else {
        y as i32
    }
}

/// What the pass `pass` draws for an entity that carries `c`, as the command
/// number `k` of the pass; `None` where the pass does not draw the entity.
pub open spec fn drawing_of(pass: Pass, c: Components, k: nat) -> Option<Drawing> {
    match pass {
        Pass::Velocities => if c.ball && c.physics is Some {
            Some(
                Drawing::Text {
                    pos: Vec2 { x: VELOCITY_TEXT_ORIGIN, y: velocity_text_y(k) },
                    text: velocity_text(c.physics->0.vel.x, c.physics->0.vel.y),
                    size: 1,
                    color: Color { r: 255, g: 255, b: 255, a: 10 },
                },
            )
        } else {
            None
        },
        Pass::Walls => if c.wall is Some && c.transform is Some && c.shape is Some {
            Some(
                Drawing::SolidRectangle {
                    pos: c.transform->0.pos,
                    dims: c.shape->0.dims,
                    color: if c.ball_eater {
                        Color { r: 230, g: 41, b: 55, a: 255 }
                    } else {
                        Color { r: 255, g: 255, b: 255, a: 255 }
                    },
                },
            )
        } else {
            None
        },
        Pass::Paddles => if c.paddle is Some && c.transform is Some && c.shape is Some {
            Some(
                Drawing::Paddle {
                    pos: c.transform->0.pos,
                    dims: c.shape->0.dims,
                    color: Color { r: 245, g: 245, b: 245, a: 255 },
                },
            )
        } else {
            None
        },
        Pass::Blocks => if c.block is Some && c.transform is Some && c.shape is Some
            && c.health is Some {
            Some(
                Drawing::Block {
                    pos: c.transform->0.pos,
                    dims: c.shape->0.dims,
                    color: c.block->0.color,
                    hp: c.health->0.hp,
                    ball_unbreakable: c.strong_block,
                },
            )
        } else {
            None
        },
        Pass::Balls => if c.ball && c.transform is Some && c.shape is Some {
            Some(Drawing::Ball { pos: c.transform->0.pos, dims: c.shape->0.dims })
        } else {
            None
        },
    }
}

/// What the pass `pass` draws for the first `n` entities of `order`.
pub open spec fn pass_drawings(
    pass: Pass,
    entities: Map<EntityId, Components>,
    order: Seq<EntityId>,
    n: nat,
) -> Seq<Drawing>
    decreases n,
{
    if n == 0 {
        Seq::empty()
    } else {
        let earlier = pass_drawings(pass, entities, order, (n - 1) as nat);
        match drawing_of(pass, entities[order[n - 1]], earlier.len()) {
            Some(drawing) => earlier.push(drawing),
            None => earlier,
        }
    }
}

/// The text that shows the level.
pub open spec fn level_drawing(level: u32) -> Drawing {
    Drawing::Text {
        pos: Vec2 { x: LEVEL_TEXT_X, y: LEVEL_TEXT_Y },
        text: level_text(level),
        size: 1,
        color: Color { r: 255, g: 255, b: 255, a: 255 },
    }
}

/// Everything that a tick draws: the passes in their order, each over the
/// entities in the order of the world, and the level.
pub open spec fn rendering_of(
    entities: Map<EntityId, Components>,
    order: Seq<EntityId>,
    level: u32,
) -> Seq<Drawing> {
    pass_drawings(Pass::Velocities, entities, order, order.len()) + pass_drawings(
        Pass::Walls,
        entities,
        order,
        order.len(),
    ) + pass_drawings(Pass::Paddles, entities, order, order.len()) + pass_drawings(
        Pass::Blocks,
        entities,
        order,
        order.len(),
    ) + pass_drawings(Pass::Balls, entities, order, order.len()).push(level_drawing(level))
}

/// What `pass` draws for `entity` as its command number `k`.
fn draw_entity(ecs: &World, entity: EntityId, pass: Pass, k: usize) -> (command: Option<
    RenderCommand,
>)
    requires
        world_entities(*ecs).contains_key(entity),
    ensures
        match command {
            Some(c) => drawing_of(pass, world_entities(*ecs)[entity], k as nat) == Some(c@),
            None => drawing_of(pass, world_entities(*ecs)[entity], k as nat) is None,
        },
{
    match pass {
        Pass::Velocities => {
            if !has_ball(ecs, entity) {
                return None;
            }
            match physics_of(ecs, entity) {
                Some(physics) => {
                    let rank: i64 = if k > 1_000_000 {
                        1_000_000
                    } else {
                        k as i64
                    };
                    let offset: i64 = VELOCITY_TEXT_ORIGIN as i64 + VELOCITY_TEXT_PITCH as i64
                        * rank;
                    let y: i32 = if offset > i32::MAX as i64 {
                        i32::MAX
                    } else {
                        offset as i32
                    };
                    Some(
                        RenderCommand::Text {
                            pos: Vec2 { x: VELOCITY_TEXT_ORIGIN, y },
                            text: velocity_label(physics.vel.x, physics.vel.y),
                            size: 1,
                            color: Color::new(255, 255, 255, 10),
                        },
                    )
                },
                None => None,
            }
        },
        Pass::Walls => {
            if !has_wall(ecs, entity) {
                return None;
            }
            match (transform_of(ecs, entity), shape_of(ecs, entity)) {
                (Some(transform), Some(shape)) => {
                    let color = if has_ball_eater(ecs, entity) {
                        Color::red()
                    } else {
                        Color::white()
                    };
                    Some(RenderCommand::SolidRectangle { pos: transform.pos, dims: shape.dims, color })
                },
                _ => None,
            }
        },
        Pass::Paddles => {
            if !has_paddle(ecs, entity) {
                return None;
            }
            match (transform_of(ecs, entity), shape_of(ecs, entity)) {
                (Some(transform), Some(shape)) => Some(
                    RenderCommand::Paddle {
                        pos: transform.pos,
                        dims: shape.dims,
                        color: Color::raywhite(),
                    },
                ),
                _ => None,
            }
        },
        Pass::Blocks => {
            match (
                block_of(ecs, entity),
                transform_of(ecs, entity),
                shape_of(ecs, entity),
                health_of(ecs, entity),
            ) {
                (Some(block), Some(transform), Some(shape), Some(health)) => Some(
                    RenderCommand::Block {
                        pos: transform.pos,
                        dims: shape.dims,
                        color: block.color,
                        hp: health.hp,
                        ball_unbreakable: has_strong_block(ecs, entity),
                    },
                ),
                _ => None,
            }
        },
        Pass::Balls => {
            if !has_ball(ecs, entity) {
                return None;
            }
            match (transform_of(ecs, entity), shape_of(ecs, entity)) {
                (Some(transform), Some(shape)) => Some(
                    RenderCommand::Ball { pos: transform.pos, dims: shape.dims },
                ),
                _ => None,
            }
        },
    }
}

/// Appends what `pass` draws for the entities `ids` to the render commands.
fn render_pass(ecs: &World, ids: &Vec<EntityId>, pass: Pass, state: &mut State)
    requires
        forall|i: int| 0 <= i < ids.len() ==> world_entities(*ecs).contains_key(#[trigger] ids[i]),
    ensures
        drawings(final(state).render_command_buffer@) == drawings(
            old(state).render_command_buffer@,
        ) + pass_drawings(pass, world_entities(*ecs), ids@, ids.len() as nat),
        *final(state) == (State {
            render_command_buffer: final(state).render_command_buffer,
            ..*old(state)
        }),
{
    let ghost start = drawings(state.render_command_buffer@);
    let mut drawn: usize = 0;
    let mut i: usize = 0;
    while i < ids.len()
        invariant
            i <= ids.len(),
            drawn <= i,
            start == drawings(old(state).render_command_buffer@),
            forall|j: int|
                0 <= j < ids.len() ==> world_entities(*ecs).contains_key(#[trigger] ids[j]),
            drawn == pass_drawings(pass, world_entities(*ecs), ids@, i as nat).len(),
            drawings(state.render_command_buffer@) =~= start + pass_drawings(
                pass,
                world_entities(*ecs),
                ids@,
                i as nat,
            ),
            *state == (State {
                render_command_buffer: state.render_command_buffer,
                ..*old(state)
            }),
        decreases ids.len() - i,
    {
        match draw_entity(ecs, ids[i], pass, drawn) {
            Some(command) => {
                proof {
                    drawings_of_push(state.render_command_buffer@, command);
                }
                state.render_command_buffer.push(command);
                drawn += 1;
            },
            None => {},
        }
        i += 1;
    }
}

/// Appends the draw commands of the tick to the render commands: the
/// velocity of each ball, the walls, the paddles, the blocks, the balls, and
/// the number of the level.
pub fn render(ecs: &World, state: &mut State)
    ensures
        drawings(final(state).render_command_buffer@) == drawings(
            old(state).render_command_buffer@,
        ) + rendering_of(world_entities(*ecs), world_order(*ecs), old(state).level),
        *final(state) == (State {
            render_command_buffer: final(state).render_command_buffer,
            ..*old(state)
        }),
{
    let ids = entity_ids(ecs);
    proof {
        assert forall|i: int| 0 <= i < ids.len() implies world_entities(*ecs).contains_key(
            #[trigger] ids[i],
        ) by {
            assert(ids@.contains(ids[i]));
        }
    }
    let ghost start = drawings(state.render_command_buffer@);
    render_pass(ecs, &ids, Pass::Velocities, state);
    render_pass(ecs, &ids, Pass::Walls, state);
    render_pass(ecs, &ids, Pass::Paddles, state);
    render_pass(ecs, &ids, Pass::Blocks, state);
    render_pass(ecs, &ids, Pass::Balls, state);
    let label = RenderCommand::Text {
        pos: Vec2 { x: LEVEL_TEXT_X, y: LEVEL_TEXT_Y },
        text: level_label(state.level),
        size: 1,
        color: Color::white(),
    };
    proof {
        drawings_of_push(state.render_command_buffer@, label);
    }
    state.render_command_buffer.push(label);
    assert(drawings(state.render_command_buffer@) =~= start + rendering_of(
        world_entities(*ecs),
        world_order(*ecs),
        old(state).level,
    ));
}

} // verus!

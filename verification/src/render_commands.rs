//! The draw commands that a tick hands to the renderer.

use vstd::prelude::*;
use crate::components::{clamp_i32, clamp_to_i32, Color, pixels_of, to_pixels, Vec2};

verus! {

pub type RenderCommandBuffer = Vec<RenderCommand>;

/// One thing to draw. Positions and extents are in length units.
#[derive(Clone, Debug, PartialEq, Eq)]
pub enum RenderCommand {
    ColoredSquare { pos: Vec2, color: Color },
    Block { pos: Vec2, dims: Vec2, color: Color, hp: u32, ball_unbreakable: bool },
    Ball { pos: Vec2, dims: Vec2 },
    Paddle { pos: Vec2, dims: Vec2, color: Color },
    Text { pos: Vec2, text: String, size: i32, color: Color },
    Line { start: Vec2, end: Vec2, color: Color },
    Circle { pos: Vec2, radius: i32, color: Color },
    SolidRectangle { pos: Vec2, dims: Vec2, color: Color },
}

/// A draw command as a value: a text is the sequence of its characters.
pub enum Drawing {
    ColoredSquare { pos: Vec2, color: Color },
    Block { pos: Vec2, dims: Vec2, color: Color, hp: u32, ball_unbreakable: bool },
    Ball { pos: Vec2, dims: Vec2 },
    Paddle { pos: Vec2, dims: Vec2, color: Color },
    Text { pos: Vec2, text: Seq<char>, size: i32, color: Color },
    Line { start: Vec2, end: Vec2, color: Color },
    Circle { pos: Vec2, radius: i32, color: Color },
    SolidRectangle { pos: Vec2, dims: Vec2, color: Color },
}

impl View for RenderCommand {
    type V = Drawing;

    open spec fn view(&self) -> Drawing {
        match *self {
            RenderCommand::ColoredSquare { pos, color } => Drawing::ColoredSquare { pos, color },
            RenderCommand::Block { pos, dims, color, hp, ball_unbreakable } => Drawing::Block {
                pos,
                dims,
                color,
                hp,
                ball_unbreakable,
            },
            RenderCommand::Ball { pos, dims } => Drawing::Ball { pos, dims },
            RenderCommand::Paddle { pos, dims, color } => Drawing::Paddle { pos, dims, color },
            RenderCommand::Text { pos, text, size, color } => Drawing::Text {
                pos,
                text: text@,
                size,
                color,
            },
            RenderCommand::Line { start, end, color } => Drawing::Line { start, end, color },
            RenderCommand::Circle { pos, radius, color } => Drawing::Circle { pos, radius, color },
            RenderCommand::SolidRectangle { pos, dims, color } => Drawing::SolidRectangle {
                pos,
                dims,
                color,
            },
        }
    }
}

/// The commands of a buffer as values.
pub open spec fn drawings(buffer: Seq<RenderCommand>) -> Seq<Drawing> {
    buffer.map_values(|command: RenderCommand| command@)
}

/// The values of a buffer with one more command are the values of the buffer
/// and the value of that command.
pub proof fn drawings_of_push(buffer: Seq<RenderCommand>, command: RenderCommand)
    ensures
        drawings(buffer.push(command)) == drawings(buffer).push(command@),
{
    assert(drawings(buffer.push(command)) =~= drawings(buffer).push(command@));
}

/// The decimal digits of a number, with a minus sign before a negative one.
pub uninterp spec fn decimal_text(n: i64) -> Seq<char>;

/// `format!` of one integer: its decimal digits.
#[verifier::external_body]
pub(crate) fn decimal(n: i64) -> (text: String)
    ensures
        text@ == decimal_text(n),
{
    format!("{}", n)
}

/// `format!` of two texts: the first followed by the second.
#[verifier::external_body]
pub(crate) fn join(first: &str, second: &str) -> (text: String)
    ensures
        text@ == first@ + second@,
{
    format!("{}{}", first, second)
}

/// One call for the renderer. Texts and rectangles are placed in whole
/// pixels; lines and circles keep their length units. `T` is the type of a text.
#[derive(Clone, Debug, PartialEq, Eq)]
pub enum Draw<T> {
    Text { text: T, x: i32, y: i32, size: i32, color: Color },
    Rectangle { x: i32, y: i32, width: i32, height: i32, color: Color },
    RectangleLines { x: i32, y: i32, width: i32, height: i32, color: Color },
    Line { start: Vec2, end: Vec2, color: Color },
    Circle { x: i32, y: i32, radius: i32, color: Color },
}

pub type DrawCall = Draw<String>;

impl View for Draw<String> {
    type V = Draw<Seq<char>>;

    open spec fn view(&self) -> Draw<Seq<char>> {
        match *self {
            Draw::Text { text, x, y, size, color } => Draw::Text { text: text@, x, y, size, color },
            Draw::Rectangle { x, y, width, height, color } => Draw::Rectangle {
                x,
                y,
                width,
                height,
                color,
            },
            Draw::RectangleLines { x, y, width, height, color } => Draw::RectangleLines {
                x,
                y,
                width,
                height,
                color,
            },
            Draw::Line { start, end, color } => Draw::Line { start, end, color },
            Draw::Circle { x, y, radius, color } => Draw::Circle { x, y, radius, color },
        }
    }
}

/// The calls of a list as values.
pub open spec fn calls(list: Seq<DrawCall>) -> Seq<Draw<Seq<char>>> {
    list.map_values(|call: DrawCall| call@)
}

/// The values of a list with one more call are the values of the list and
/// the value of that call.
pub proof fn calls_of_push(list: Seq<DrawCall>, call: DrawCall)
    ensures
        calls(list.push(call)) == calls(list).push(call@),
{
    assert(calls(list.push(call)) =~= calls(list).push(call@));
}

/// The rectangle of the given corner and extents, in whole pixels.
pub open spec fn frame_of(pos: Vec2, dims: Vec2) -> (int, int, int, int) {
    (
        pixels_of(pos.x as int),
        pixels_of(pos.y as int),
        pixels_of(dims.x as int),
        pixels_of(dims.y as int),
    )
}

/// The off-white of outlines.
pub open spec fn outline_color() -> Color {
    Color { r: 245, g: 245, b: 245, a: 255 }
}

/// The far corner of the stroke across a block that takes more than one
/// hit: one pixel left of its lower right corner.
pub open spec fn stroke_end(pos: Vec2, dims: Vec2) -> Vec2 {
    Vec2 { x: clamp_i32(pos.x + dims.x - 1024), y: clamp_i32(pos.y + dims.y) }
}

/// The calls that draw one command.
///
/// - A ball and a paddle are outlines.
/// - A block that no hit destroys is filled. Any other block is an outline,
///   with a stroke across it while it takes more than one hit.
/// - A coloured square is one pixel wide and high.
pub open spec fn calls_for(command: Drawing) -> Seq<Draw<Seq<char>>> {
    match command {
        Drawing::Ball { pos, dims } => {
            let (x, y, width, height) = frame_of(pos, dims);
            seq![
                Draw::RectangleLines {
                    x: x as i32,
                    y: y as i32,
                    width: width as i32,
                    height: height as i32,
                    color: outline_color(),
                },
            ]
        },
        Drawing::ColoredSquare { pos, color } => seq![
            Draw::Rectangle {
                x: pixels_of(pos.x as int) as i32,
                y: pixels_of(pos.y as int) as i32,
                width: 1,
                height: 1,
                color,
            },
        ],
        Drawing::Block { pos, dims, color, hp, ball_unbreakable } => {
            let (x, y, width, height) = frame_of(pos, dims);
            if ball_unbreakable {
                seq![
                    Draw::Rectangle {
                        x: x as i32,
                        y: y as i32,
                        width: width as i32,
                        height: height as i32,
                        color,
                    },
                ]
            } else {
                let outline = Draw::RectangleLines {
                    x: x as i32,
                    y: y as i32,
                    width: width as i32,
                    height: height as i32,
                    color,
                };
                if hp > 1 {
                    seq![outline, Draw::Line { start: pos, end: stroke_end(pos, dims), color }]
                } else {
                    seq![outline]
                }
            }
        },
        Drawing::Paddle { pos, dims, color } => {
            let (x, y, width, height) = frame_of(pos, dims);
            seq![
                Draw::RectangleLines {
                    x: x as i32,
                    y: y as i32,
                    width: width as i32,
                    height: height as i32,
                    color,
                },
            ]
        },
        Drawing::Text { pos, text, size, color } => seq![
            Draw::Text {
                text,
                x: pixels_of(pos.x as int) as i32,
                y: pixels_of(pos.y as int) as i32,
                size,
                color,
            },
        ],
        Drawing::Line { start, end, color } => seq![Draw::Line { start, end, color }],
        Drawing::Circle { pos, radius, color } => seq![
            Draw::Circle {
                x: pixels_of(pos.x as int) as i32,
                y: pixels_of(pos.y as int) as i32,
                radius,
                color,
            },
        ],
        Drawing::SolidRectangle { pos, dims, color } => {
            let (x, y, width, height) = frame_of(pos, dims);
            seq![
                Draw::Rectangle {
                    x: x as i32,
                    y: y as i32,
                    width: width as i32,
                    height: height as i32,
                    color,
                },
            ]
        },
    }
}

/// The calls that draw the commands, one command after the other.
pub open spec fn calls_for_all(commands: Seq<Drawing>) -> Seq<Draw<Seq<char>>>
    decreases commands.len(),
{
    if commands.len() == 0 {
        Seq::empty()
    } else {
        calls_for_all(commands.drop_last()) + calls_for(commands.last())
    }
}

fn push_call(list: &mut Vec<DrawCall>, call: DrawCall)
    ensures
        calls(final(list)@) == calls(old(list)@).push(call@),
{
    proof {
        calls_of_push(list@, call);
    }
    list.push(call);
}

/// Appends the calls that draw `command` to `list`.
fn execute_render_command(list: &mut Vec<DrawCall>, command: &RenderCommand)
    ensures
        calls(final(list)@) == calls(old(list)@) + calls_for(command@),
{
    match command {
        RenderCommand::Ball { pos, dims } => {
            push_call(
                list,
                Draw::RectangleLines {
                    x: to_pixels(pos.x),
                    y: to_pixels(pos.y),
                    width: to_pixels(dims.x),
                    height: to_pixels(dims.y),
                    color: Color::raywhite(),
                },
            );
        },
        RenderCommand::ColoredSquare { pos, color } => {
            push_call(
                list,
                Draw::Rectangle {
                    x: to_pixels(pos.x),
                    y: to_pixels(pos.y),
                    width: 1,
                    height: 1,
                    color: *color,
                },
            );
        },
        RenderCommand::Block { pos, dims, color, hp, ball_unbreakable } => {
            if *ball_unbreakable {
                push_call(
                    list,
                    Draw::Rectangle {
                        x: to_pixels(pos.x),
                        y: to_pixels(pos.y),
                        width: to_pixels(dims.x),
                        height: to_pixels(dims.y),
                        color: *color,
                    },
                );
            } else {
                push_call(
                    list,
                    Draw::RectangleLines {
                        x: to_pixels(pos.x),
                        y: to_pixels(pos.y),
                        width: to_pixels(dims.x),
                        height: to_pixels(dims.y),
                        color: *color,
                    },
                );
                if *hp > 1 {
                    let end = Vec2 {
                        x: clamp_to_i32(pos.x as i64 + dims.x as i64 - 1024),
                        y: clamp_to_i32(pos.y as i64 + dims.y as i64),
                    };
                    push_call(list, Draw::Line { start: *pos, end, color: *color });
                }
            }
        },
        RenderCommand::Paddle { pos, dims, color } => {
            push_call(
                list,
                Draw::RectangleLines {
                    x: to_pixels(pos.x),
                    y: to_pixels(pos.y),
                    width: to_pixels(dims.x),
                    height: to_pixels(dims.y),
                    color: *color,
                },
            );
        },
        RenderCommand::Text { pos, text, size, color } => {
            push_call(
                list,
                Draw::Text {
                    text: text.clone(),
                    x: to_pixels(pos.x),
                    y: to_pixels(pos.y),
                    size: *size,
                    color: *color,
                },
            );
        },
        RenderCommand::Line { start, end, color } => {
            push_call(list, Draw::Line { start: *start, end: *end, color: *color });
        },
        RenderCommand::Circle { pos, radius, color } => {
            push_call(
                list,
                Draw::Circle {
                    x: to_pixels(pos.x),
                    y: to_pixels(pos.y),
                    radius: *radius,
                    color: *color,
                },
            );
        },
        RenderCommand::SolidRectangle { pos, dims, color } => {
            push_call(
                list,
                Draw::Rectangle {
                    x: to_pixels(pos.x),
                    y: to_pixels(pos.y),
                    width: to_pixels(dims.x),
                    height: to_pixels(dims.y),
                    color: *color,
                },
            );
        },
    }
    assert(calls(list@) =~= calls(old(list)@) + calls_for(command@));
}

/// Appends to `list` the calls that draw the commands of the buffer, in the
/// order of the buffer.
pub fn execute_render_command_buffer(
    list: &mut Vec<DrawCall>,
    render_command_buffer: &RenderCommandBuffer,
)
    ensures
        calls(final(list)@) == calls(old(list)@) + calls_for_all(drawings(render_command_buffer@)),
{
    let mut i: usize = 0;
    let ghost commands = drawings(render_command_buffer@);
    assert(commands.take(0) =~= Seq::empty());
    while i < render_command_buffer.len()
        invariant
            i <= render_command_buffer.len(),
            commands == drawings(render_command_buffer@),
            calls(list@) =~= calls(old(list)@) + calls_for_all(commands.take(i as int)),
        decreases render_command_buffer.len() - i,
    {
        proof {
            let next = commands.take(i + 1);
            assert(next.drop_last() =~= commands.take(i as int));
            assert(next.last() == render_command_buffer@[i as int]@);
        }
        execute_render_command(list, &render_command_buffer[i]);
        i += 1;
    }
    assert(commands.take(i as int) =~= commands);
}

} // verus!

//! Attributes that can be attached to an entity of the game world.
//!
//! Lengths and speeds are integers in units of 1/1024 pixel, so that every
//! rule of the game is decided in exact arithmetic.

use vstd::prelude::*;

verus! {

/// Handle of an entity of the world, as its 64 identifying bits.
pub type EntityId = u64;

/// Length units per pixel.
pub const UNITS_PER_PIXEL: i32 = 1024;

/// A point or an extent of the plane, in length units.
#[derive(Clone, Copy, Debug, PartialEq, Eq, Structural)]
pub struct Vec2 {
    pub x: i32,
    pub y: i32,
}

impl Vec2 {
    /// The vector with the given coordinates.
    pub fn new(x: i32, y: i32) -> (v: Self)
        ensures
            v == (Vec2 { x, y }),
    {
        Vec2 { x, y }
    }

    /// Half of each coordinate, rounded towards zero.
    pub open spec fn half(self) -> Vec2 {
        Vec2 { x: halved(self.x as int) as i32, y: halved(self.y as int) as i32 }
    }

    /// Half of each coordinate, rounded towards zero.
    pub fn halve(self) -> (h: Vec2)
        ensures
            h == self.half(),
    {
        Vec2 { x: self.x / 2, y: self.y / 2 }
    }

    /// The middle of what has its corner at `self` and the extents `dims`;
    /// a coordinate beyond the reach of the machine's integers is put at their end.
    pub open spec fn centre_of(self, dims: Vec2) -> Vec2 {
        Vec2 {
            x: clamp_i32(self.x + halved(dims.x as int)),
            y: clamp_i32(self.y + halved(dims.y as int)),
        }
    }

    /// The middle of what has its corner at `self` and the extents `dims`.
    pub fn centre(self, dims: Vec2) -> (middle: Vec2)
        ensures
            middle == self.centre_of(dims),
    {
        Vec2 {
            x: clamp_to_i32(self.x as i64 + (dims.x / 2) as i64),
            y: clamp_to_i32(self.y as i64 + (dims.y / 2) as i64),
        }
    }
}

/// Half of `v`, rounded towards zero.
pub open spec fn halved(v: int) -> int {
    if v >= 0 {
        v / 2
    } else {
        -((-v) / 2)
    }
}

/// The machine integer nearest to `v`.
pub open spec fn clamp_i32(v: int) -> i32 {
    if v < i32::MIN {
        i32::MIN
    } else if v > i32::MAX {
        i32::MAX
    } else {
        v as i32
    }
}

/// The machine integer nearest to `v`.
pub fn clamp_to_i32(v: i64) -> (clamped: i32)
    ensures
        clamped == clamp_i32(v as int),
{
    if v < i32::MIN as i64 {
        i32::MIN
    } else if v > i32::MAX as i64 {
        i32::MAX
    } else {
        v as i32
    }
}

/// The whole pixels of a length, rounded towards zero.
pub open spec fn pixels_of(v: int) -> int {
    if v >= 0 {
        v / 1024
    } else {
        -((-v) / 1024)
    }
}

/// The whole pixels of a length, rounded towards zero.
pub fn to_pixels(v: i32) -> (pixels: i32)
    ensures
        pixels == pixels_of(v as int),
{
    v / UNITS_PER_PIXEL
}

/// A red, green, blue and alpha colour.
#[derive(Clone, Copy, Debug, PartialEq, Eq, Structural)]
pub struct Color {
    pub r: u8,
    pub g: u8,
    pub b: u8,
    pub a: u8,
}

impl Color {
    /// The colour with the given channels.
    pub fn new(r: u8, g: u8, b: u8, a: u8) -> (c: Self)
        ensures
            c == (Color { r, g, b, a }),
    {
        Color { r, g, b, a }
    }

    /// Pure white.
    pub fn white() -> (c: Self)
        ensures
            c == (Color { r: 255, g: 255, b: 255, a: 255 }),
    {
        Color { r: 255, g: 255, b: 255, a: 255 }
    }

    /// The off-white used for outlines.
    pub fn raywhite() -> (c: Self)
        ensures
            c == (Color { r: 245, g: 245, b: 245, a: 255 }),
    {
        Color { r: 245, g: 245, b: 245, a: 255 }
    }

    /// The red that marks a ball-eating wall.
    pub fn red() -> (c: Self)
        ensures
            c == (Color { r: 230, g: 41, b: 55, a: 255 }),
    {
        Color { r: 230, g: 41, b: 55, a: 255 }
    }
}

/// Position and orientation; the orientation is a direction vector.
#[derive(Clone, Copy, Debug, PartialEq, Eq, Structural)]
pub struct CTransform {
    pub pos: Vec2,
    pub rot: Vec2,
}

#[derive(Clone, Copy, Debug, PartialEq, Eq, Structural)]
pub struct Player;

/// Marks a ball.
#[derive(Clone, Copy, Debug, PartialEq, Eq, Structural)]
pub struct Ball;

#[derive(Clone, Copy, Debug, PartialEq, Eq, Structural)]
pub struct Bouncy;

#[derive(Clone, Copy, Debug, PartialEq, Eq, Structural)]
pub struct InputControlled;

/// Marks a breakable block and holds its colour.
#[derive(Clone, Copy, Debug, PartialEq, Eq, Structural)]
pub struct Block {
    pub color: Color,
}

/// Marks a block that ordinary hits never destroy.
#[derive(Clone, Copy, Debug, PartialEq, Eq, Structural)]
pub struct StrongBlock;

/// Remaining hit points.
#[derive(Clone, Copy, Debug, PartialEq, Eq, Structural)]
pub struct Health {
    pub hp: u32,
}

/// Marks a paddle.
#[derive(Clone, Copy, Debug, PartialEq, Eq, Structural)]
pub struct Paddle {
    pub size: u32,
}

/// Axis-aligned extents: width and height.
#[derive(Clone, Copy, Debug, PartialEq, Eq, Structural)]
pub struct Shape {
    pub dims: Vec2,
}

impl Shape {
    /// Both extents are strictly positive.
    pub open spec fn wf(self) -> bool {
        self.dims.x > 0 && self.dims.y > 0
    }
}

/// Linear and angular velocity, per second.
#[derive(Clone, Copy, Debug, PartialEq, Eq, Structural)]
pub struct Physics {
    pub vel: Vec2,
    pub rot_vel: i32,
}

#[derive(Clone, Copy, Debug, PartialEq, Eq, Structural)]
pub struct CaptureInPlayField;

#[derive(Clone, Copy, Debug, PartialEq, Eq, Structural)]
pub struct FreeToLeavePlayField;

#[derive(Clone, Copy, Debug, PartialEq, Eq, Structural)]
pub struct Score {
    pub owner: EntityId,
    pub score: u32,
}

/// Names the paddle that launched a ball; it never decides a lifetime.
#[derive(Clone, Copy, Debug, PartialEq, Eq, Structural)]
pub struct OwnedBy {
    pub owner: EntityId,
}

#[derive(Clone, Copy, Debug, PartialEq, Eq, Structural)]
pub struct AttachedTo {
    pub entity: EntityId,
    pub offset: Vec2,
}

#[derive(Clone, Copy, Debug, PartialEq, Eq, Structural)]
pub struct GrabZone {
    pub radius: i32,
}

#[derive(Clone, Copy, Debug, PartialEq, Eq, Structural)]
pub struct Attachable;

#[derive(Clone, Copy, Debug, PartialEq, Eq, Structural)]
pub struct WantsToGoTo {
    pub pos: Vec2,
}

#[derive(Clone, Copy, Debug, PartialEq, Eq, Structural)]
pub struct LookAt {
    pub entity: EntityId,
}

#[derive(Clone, Copy, Debug, PartialEq, Eq, Structural)]
pub struct Enemy;

/// Marks a wall and holds its colour.
#[derive(Clone, Copy, Debug, PartialEq, Eq, Structural)]
pub struct Wall {
    pub color: Color,
}

/// Marks a wall that removes a ball on contact.
#[derive(Clone, Copy, Debug, PartialEq, Eq, Structural)]
pub struct BallEater;

/// Marks an entity that has a body in the physics world.
#[derive(Clone, Copy, Debug, PartialEq, Eq, Structural)]
pub struct HasRigidBody;

#[derive(Clone, Copy, Debug, PartialEq, Eq, Structural)]
pub struct HasSensor;

/// The physics world takes this entity's velocity from the entity each step.
#[derive(Clone, Copy, Debug, PartialEq, Eq, Structural)]
pub struct VelocityManaged;

/// The physics world takes this entity's position from the entity each step.
#[derive(Clone, Copy, Debug, PartialEq, Eq, Structural)]
pub struct PositionManaged;

} // verus!

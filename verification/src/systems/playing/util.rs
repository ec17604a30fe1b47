//! Places in and around the play field.

use vstd::prelude::*;
use rand::rngs::StdRng;
use rand::Rng;
use crate::components::Vec2;
use crate::entity_archetypes::{FIELD_HEIGHT, FIELD_WIDTH};

verus! {

#[verifier::external_type_specification]
#[verifier::external_body]
pub struct ExStdRng(StdRng);

/// `Rng::gen_range` on `low..high`: some number from `low` up to, but not
/// including, `high`.
#[verifier::external_body]
fn random_between(rng: &mut StdRng, low: i32, high: i32) -> (n: i32)
    requires
        low < high,
    ensures
        low <= n < high,
{
    rng.gen_range(low..high)
}

/// The most that a place may be padded by, so that twice the padding beyond
/// the play field fits the machine's integers.
pub const MAX_PADDING: i32 = 0x2000_0000;

/// Whether `pos` lies in the play field, its edges included.
pub open spec fn in_play_area(pos: Vec2) -> bool {
    0 <= pos.x <= FIELD_WIDTH && 0 <= pos.y <= FIELD_HEIGHT
}

/// Whether `v` lies before a stretch of the length `length`, by more than
/// `padding` and by at most twice as much.
pub open spec fn lies_before(v: int, padding: int) -> bool {
    -2 * padding <= v < -padding
}

/// Whether `v` lies behind a stretch of the length `length`, by at least
/// `padding` and by less than twice as much.
pub open spec fn lies_behind(v: int, length: int, padding: int) -> bool {
    length + padding <= v < length + 2 * padding
}

/// Whether `v` lies along a stretch of the length `length`.
pub open spec fn lies_along(v: int, length: int) -> bool {
    0 <= v < length
}

/// Whether `pos` lies in one of the eight zones around the play field:
/// beside it, above or below it, or off one of its corners, at a distance
/// between `padding` and twice `padding`.
pub open spec fn in_padded_surroundings(pos: Vec2, padding: int) -> bool {
    let off_x = lies_before(pos.x as int, padding) || lies_behind(
        pos.x as int,
        FIELD_WIDTH as int,
        padding,
    );
    let off_y = lies_before(pos.y as int, padding) || lies_behind(
        pos.y as int,
        FIELD_HEIGHT as int,
        padding,
    );
    ||| off_x && off_y
    ||| off_x && lies_along(pos.y as int, FIELD_HEIGHT as int)
    ||| off_y && lies_along(pos.x as int, FIELD_WIDTH as int)
}

/// Some place of the play field.
pub fn get_random_pos_in_play_area(rng: &mut StdRng) -> (pos: Vec2)
    ensures
        lies_along(pos.x as int, FIELD_WIDTH as int),
        lies_along(pos.y as int, FIELD_HEIGHT as int),
        in_play_area(pos),
{
    let x: i32 = random_between(rng, 0, FIELD_WIDTH);
    let y: i32 = random_between(rng, 0, FIELD_HEIGHT);
    Vec2 { x, y }
}

/// Some place in one of the eight zones around the play field, at a distance
/// between `padded_size` and twice `padded_size` from it: what is as large
/// as `padded_size` can be placed there without showing.
pub fn get_padded_position_outside_play_area(rng: &mut StdRng, padded_size: i32) -> (pos: Vec2)
    requires
        0 < padded_size <= MAX_PADDING,
    ensures
        in_padded_surroundings(pos, padded_size as int),
        !in_play_area(pos),
{
    let zone: i32 = random_between(rng, 0, 8);
    let twice: i32 = 2 * padded_size;
    let before_low: i32 = -twice;
    let before_high: i32 = -padded_size;
    let right_low: i32 = FIELD_WIDTH + padded_size;
    let right_high: i32 = FIELD_WIDTH + twice;
    let below_low: i32 = FIELD_HEIGHT + padded_size;
    let below_high: i32 = FIELD_HEIGHT + twice;
    if zone == 0 {
        let x: i32 = random_between(rng, before_low, before_high);
        let y: i32 = random_between(rng, before_low, before_high);
        Vec2 { x, y }
    } else if zone == 1 {
        let x: i32 = random_between(rng, right_low, right_high);
        let y: i32 = random_between(rng, before_low, before_high);
        Vec2 { x, y }
    } else if zone == 2 {
        let x: i32 = random_between(rng, right_low, right_high);
        let y: i32 = random_between(rng, below_low, below_high);
        Vec2 { x, y }
    } else if zone == 3 {
        let x: i32 = random_between(rng, before_low, before_high);
        let y: i32 = random_between(rng, below_low, below_high);
        Vec2 { x, y }
    } else if zone == 4 {
        let x: i32 = random_between(rng, 0, FIELD_WIDTH);
        let y: i32 = random_between(rng, before_low, before_high);
        Vec2 { x, y }
    } else if zone == 5 {
        let x: i32 = random_between(rng, 0, FIELD_WIDTH);
        let y: i32 = random_between(rng, below_low, below_high);
        Vec2 { x, y }
    } else if zone == 6 {
        let x: i32 = random_between(rng, before_low, before_high);
        let y: i32 = random_between(rng, 0, FIELD_HEIGHT);
        Vec2 { x, y }
    } else {
        let x: i32 = random_between(rng, right_low, right_high);
        let y: i32 = random_between(rng, 0, FIELD_HEIGHT);
        Vec2 { x, y }
    }
}

/// Whether `pos` lies in the play field, its edges included.
pub fn is_in_play_area(pos: Vec2) -> (inside: bool)
    ensures
        inside == in_play_area(pos),
{
    if pos.x < 0 || pos.x > FIELD_WIDTH {
        return false;
    }
    if pos.y < 0 || pos.y > FIELD_HEIGHT {
        return false;
    }
    true
}

} // verus!

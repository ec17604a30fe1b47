//! The sounds of the game and the files they are loaded from.

use vstd::prelude::*;

verus! {

pub enum Song {
    Playing,
}

#[derive(Clone, Copy, Debug, PartialEq, Eq, Hash, Structural)]
pub enum SoundEffect {
    Confirm,
    SuperConfirm,
    SmallLaser,
    ExplosionOne,
    ExplosionTwo,
    ExplosionThree,
    BallBounce1,
    BallBounce2,
    BallBounce3,
    BallBounce4,
    BallSturdyBlockBounce,
    BallHitPaddle,
    BallWallBounce,
    BallDrop,
    LevelStart,
    LevelWin,
    LevelLost,
}

/// The number of sound effects.
pub const SOUND_EFFECT_COUNT: usize = 17;

impl SoundEffect {
    /// The place of the effect among all effects, in the order of their declaration.
    pub open spec fn spec_index(self) -> nat {
        match self {
            SoundEffect::Confirm => 0,
            SoundEffect::SuperConfirm => 1,
            SoundEffect::SmallLaser => 2,
            SoundEffect::ExplosionOne => 3,
            SoundEffect::ExplosionTwo => 4,
            SoundEffect::ExplosionThree => 5,
            SoundEffect::BallBounce1 => 6,
            SoundEffect::BallBounce2 => 7,
            SoundEffect::BallBounce3 => 8,
            SoundEffect::BallBounce4 => 9,
            SoundEffect::BallSturdyBlockBounce => 10,
            SoundEffect::BallHitPaddle => 11,
            SoundEffect::BallWallBounce => 12,
            SoundEffect::BallDrop => 13,
            SoundEffect::LevelStart => 14,
            SoundEffect::LevelWin => 15,
            SoundEffect::LevelLost => 16,
        }
    }

    /// The place of the effect among all effects: the slot of its sound in a
    /// table that was loaded in the order of `all`.
    pub fn index(self) -> (i: usize)
        ensures
            i == self.spec_index(),
            i < SOUND_EFFECT_COUNT,
    {
        match self {
            SoundEffect::Confirm => 0,
            SoundEffect::SuperConfirm => 1,
            SoundEffect::SmallLaser => 2,
            SoundEffect::ExplosionOne => 3,
            SoundEffect::ExplosionTwo => 4,
            SoundEffect::ExplosionThree => 5,
            SoundEffect::BallBounce1 => 6,
            SoundEffect::BallBounce2 => 7,
            SoundEffect::BallBounce3 => 8,
            SoundEffect::BallBounce4 => 9,
            SoundEffect::BallSturdyBlockBounce => 10,
            SoundEffect::BallHitPaddle => 11,
            SoundEffect::BallWallBounce => 12,
            SoundEffect::BallDrop => 13,
            SoundEffect::LevelStart => 14,
            SoundEffect::LevelWin => 15,
            SoundEffect::LevelLost => 16,
        }
    }

    /// Every effect once, each at the place that `index` gives it.
    pub fn all() -> (effects: Vec<SoundEffect>)
        ensures
            effects.len() == SOUND_EFFECT_COUNT,
            forall|i: int| 0 <= i < effects.len() ==> (#[trigger] effects[i]).spec_index() == i,
    {
        vec![
            SoundEffect::Confirm,
            SoundEffect::SuperConfirm,
            SoundEffect::SmallLaser,
            SoundEffect::ExplosionOne,
            SoundEffect::ExplosionTwo,
            SoundEffect::ExplosionThree,
            SoundEffect::BallBounce1,
            SoundEffect::BallBounce2,
            SoundEffect::BallBounce3,
            SoundEffect::BallBounce4,
            SoundEffect::BallSturdyBlockBounce,
            SoundEffect::BallHitPaddle,
            SoundEffect::BallWallBounce,
            SoundEffect::BallDrop,
            SoundEffect::LevelStart,
            SoundEffect::LevelWin,
            SoundEffect::LevelLost,
        ]
    }
}

/// The name, without directory and extension, of the file that holds an effect.
pub open spec fn sound_file_name(sound_effect: SoundEffect) -> Seq<char> {
    match sound_effect {
        SoundEffect::Confirm => "confirm"@,
        SoundEffect::SuperConfirm => "super_confirm"@,
        SoundEffect::SmallLaser => "small_laser"@,
        SoundEffect::ExplosionOne => "explosion_1"@,
        SoundEffect::ExplosionTwo => "explosion_2"@,
        SoundEffect::ExplosionThree => "explosion_3"@,
        SoundEffect::BallBounce1 => "ball_bounce_1"@,
        SoundEffect::BallBounce2 => "ball_bounce_2"@,
        SoundEffect::BallBounce3 => "ball_bounce_3"@,
        SoundEffect::BallBounce4 => "ball_bounce_4"@,
        SoundEffect::BallSturdyBlockBounce => "sturdy_block_bounced_on"@,
        SoundEffect::BallHitPaddle => "ball_hit_paddle"@,
        SoundEffect::BallWallBounce => "ball_wall_bounce"@,
        SoundEffect::LevelStart => "level_start"@,
        SoundEffect::LevelWin => "level_win"@,
        SoundEffect::BallDrop => "ball_drop"@,
        SoundEffect::LevelLost => "level_loss"@,
    }
}

/// The name, without directory and extension, of the file that holds an effect.
pub fn get_sound_file_name(sound_effect: SoundEffect) -> (name: &'static str)
    ensures
        name@ == sound_file_name(sound_effect),
{
    match sound_effect {
        SoundEffect::Confirm => "confirm",
        SoundEffect::SuperConfirm => "super_confirm",
        SoundEffect::SmallLaser => "small_laser",
        SoundEffect::ExplosionOne => "explosion_1",
        SoundEffect::ExplosionTwo => "explosion_2",
        SoundEffect::ExplosionThree => "explosion_3",
        SoundEffect::BallBounce1 => "ball_bounce_1",
        SoundEffect::BallBounce2 => "ball_bounce_2",
        SoundEffect::BallBounce3 => "ball_bounce_3",
        SoundEffect::BallBounce4 => "ball_bounce_4",
        SoundEffect::BallSturdyBlockBounce => "sturdy_block_bounced_on",
        SoundEffect::BallHitPaddle => "ball_hit_paddle",
        SoundEffect::BallWallBounce => "ball_wall_bounce",
        SoundEffect::LevelStart => "level_start",
        SoundEffect::LevelWin => "level_win",
        SoundEffect::BallDrop => "ball_drop",
        SoundEffect::LevelLost => "level_loss",
    }
}

} // verus!

//! From the audio cues of a tick to the sounds that are played for them.

use vstd::prelude::*;
use rand::rngs::ThreadRng;
use rand::Rng;
use crate::audio::SoundEffect;

verus! {

#[verifier::external_type_specification]
#[verifier::external_body]
pub struct ExThreadRng(ThreadRng);

/// `rand::thread_rng`: the random number generator of the thread; nothing is stated of it.
pub assume_specification[ rand::thread_rng ]() -> (rng: ThreadRng);

/// `Rng::gen_range` on `0..bound`: some number below `bound`.
#[verifier::external_body]
fn random_below(rng: &mut ThreadRng, bound: usize) -> (n: usize)
    requires
        bound > 0,
    ensures
        n < bound,
{
    rng.gen_range(0..bound)
}

pub type AudioCommandBuffer = Vec<AudioCommand>;

/// An audio cue that the simulation raises during a tick.
#[derive(Clone, Copy, Debug, PartialEq, Eq, Hash, Structural)]
pub enum AudioCommand {
    BallWallBounce,
    BallBlockBounce,
    BallPaddleBounce,
    BallSturdyBlockBounce,
    LevelStart,
    LevelWin,
    BallDrop,
}

/// The number of sounds among which a bounce off a block chooses.
pub const BOUNCE_VARIANTS: usize = 4;

/// The cues of `commands`, each kept where it occurs first.
pub open spec fn unique(commands: Seq<AudioCommand>) -> Seq<AudioCommand>
    decreases commands.len(),
{
    if commands.len() == 0 {
        Seq::empty()
    } else {
        let earlier = unique(commands.drop_last());
        if earlier.contains(commands.last()) {
            earlier
        } else {
            earlier.push(commands.last())
        }
    }
}

/// The sound of a cue. A bounce off a block has `BOUNCE_VARIANTS` sounds,
/// among which `variant` chooses; a larger `variant` chooses the last.
pub open spec fn sound_of(command: AudioCommand, variant: usize) -> SoundEffect {
    match command {
        AudioCommand::BallBlockBounce => if variant == 0 {
            SoundEffect::BallBounce1
        } else if variant == 1 {
            SoundEffect::BallBounce2
        } else if variant == 2 {
            SoundEffect::BallBounce3
        } else {
            SoundEffect::BallBounce4
        },
        AudioCommand::BallWallBounce => SoundEffect::BallWallBounce,
        AudioCommand::BallSturdyBlockBounce => SoundEffect::BallSturdyBlockBounce,
        AudioCommand::BallPaddleBounce => SoundEffect::BallHitPaddle,
        AudioCommand::LevelStart => SoundEffect::LevelStart,
        AudioCommand::LevelWin => SoundEffect::LevelWin,
        AudioCommand::BallDrop => SoundEffect::BallDrop,
    }
}

/// `unique` repeats no cue and holds exactly the cues of its argument.
pub proof fn unique_is_a_set(commands: Seq<AudioCommand>)
    ensures
        unique(commands).no_duplicates(),
        forall|c: AudioCommand| unique(commands).contains(c) <==> commands.contains(c),
    decreases commands.len(),
{
    if commands.len() > 0 {
        let front = commands.drop_last();
        let last = commands.last();
        let earlier = unique(front);
        unique_is_a_set(front);
        assert(commands =~= front.push(last));
        assert forall|c: AudioCommand| unique(commands).contains(c) <==> commands.contains(
            c,
        ) by {
            assert(commands.contains(c) <==> front.contains(c) || c == last) by {
                if front.contains(c) {
                    let i = choose|i: int| 0 <= i < front.len() && front[i] == c;
                    assert(commands[i] == c);
                }
                if c == last {
                    assert(commands[commands.len() - 1] == c);
                }
            }
            if earlier.contains(last) {
                assert(unique(commands) == earlier);
            } else {
                assert(unique(commands) == earlier.push(last));
                assert(earlier.push(last).contains(c) <==> earlier.contains(c) || c == last) by {
                    if earlier.contains(c) {
                        let i = choose|i: int| 0 <= i < earlier.len() && earlier[i] == c;
                        assert(earlier.push(last)[i] == c);
                    }
                    if c == last {
                        assert(earlier.push(last)[earlier.len() as int] == c);
                    }
                }
            }
        }
    }
}

/// Some variant of the cue's sounds is `sound`.
pub open spec fn is_sound_of(sound: SoundEffect, command: AudioCommand) -> bool {
    exists|variant: usize| variant < BOUNCE_VARIANTS && sound == #[trigger] sound_of(command, variant)
}

/// Whether `commands` holds `command`.
pub fn contains_command(commands: &Vec<AudioCommand>, command: AudioCommand) -> (found: bool)
    ensures
        found == commands@.contains(command),
{
    let mut i: usize = 0;
    while i < commands.len()
        invariant
            i <= commands.len(),
            forall|j: int| 0 <= j < i ==> commands@[j] != command,
        decreases commands.len() - i,
    {
        if commands[i] == command {
            return true;
        }
        i += 1;
    }
    false
}

/// The cues of the buffer without repetitions, each where it occurs first.
pub fn unique_commands(audio_command_buffer: &AudioCommandBuffer) -> (commands: Vec<AudioCommand>)
    ensures
        commands@ == unique(audio_command_buffer@),
        commands@.no_duplicates(),
        forall|c: AudioCommand| commands@.contains(c) <==> audio_command_buffer@.contains(c),
{
    let mut commands: Vec<AudioCommand> = Vec::new();
    let mut i: usize = 0;
    while i < audio_command_buffer.len()
        invariant
            i <= audio_command_buffer.len(),
            commands@ == unique(audio_command_buffer@.take(i as int)),
        decreases audio_command_buffer.len() - i,
    {
        let command = audio_command_buffer[i];
        proof {
            let next = audio_command_buffer@.take(i + 1);
            assert(next.drop_last() =~= audio_command_buffer@.take(i as int));
            assert(next.last() == command);
        }
        if !contains_command(&commands, command) {
            commands.push(command);
        }
        i += 1;
    }
    proof {
        assert(audio_command_buffer@.take(i as int) =~= audio_command_buffer@);
        unique_is_a_set(audio_command_buffer@);
    }
    commands
}

/// The sound of a cue; see `sound_of`.
pub fn sound_for_command(command: AudioCommand, variant: usize) -> (sound: SoundEffect)
    ensures
        sound == sound_of(command, variant),
{
    match command {
        AudioCommand::BallBlockBounce => if variant == 0 {
            SoundEffect::BallBounce1
        } else if variant == 1 {
            SoundEffect::BallBounce2
        } else if variant == 2 {
            SoundEffect::BallBounce3
        } else {
            SoundEffect::BallBounce4
        },
        AudioCommand::BallWallBounce => SoundEffect::BallWallBounce,
        AudioCommand::BallSturdyBlockBounce => SoundEffect::BallSturdyBlockBounce,
        AudioCommand::BallPaddleBounce => SoundEffect::BallHitPaddle,
        AudioCommand::LevelStart => SoundEffect::LevelStart,
        AudioCommand::LevelWin => SoundEffect::LevelWin,
        AudioCommand::BallDrop => SoundEffect::BallDrop,
    }
}

/// The sounds to play for the cues of one tick: one sound for each kind of
/// cue in the buffer, in the order in which the kinds occur first. Which of
/// its sounds a bounce off a block gets is left to chance.
pub fn execute_audio_command_buffer(audio_command_buffer: &AudioCommandBuffer) -> (sounds: Vec<
    SoundEffect,
>)
    ensures
        sounds.len() == unique(audio_command_buffer@).len(),
        forall|i: int|
            0 <= i < sounds.len() ==> is_sound_of(
                #[trigger] sounds[i],
                unique(audio_command_buffer@)[i],
            ),
{
    let commands = unique_commands(audio_command_buffer);
    let mut rng = rand::thread_rng();
    let mut sounds: Vec<SoundEffect> = Vec::new();
    let mut i: usize = 0;
    while i < commands.len()
        invariant
            i <= commands.len(),
            sounds.len() == i,
            forall|j: int| 0 <= j < i ==> is_sound_of(#[trigger] sounds[j], commands[j]),
        decreases commands.len() - i,
    {
        let variant = random_below(&mut rng, BOUNCE_VARIANTS);
        let sound = sound_for_command(commands[i], variant);
        sounds.push(sound);
        i += 1;
    }
    sounds
}

} // verus!

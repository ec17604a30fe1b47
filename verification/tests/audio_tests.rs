use hecs_arkanoid::audio::{get_sound_file_name, SoundEffect, SOUND_EFFECT_COUNT};
use hecs_arkanoid::audio_playing::{
    contains_command, execute_audio_command_buffer, sound_for_command, unique_commands,
    AudioCommand,
};

#[test]
fn cues_are_deduplicated_by_kind_in_order_of_first_occurrence() {
    let buffer = vec![
        AudioCommand::BallWallBounce,
        AudioCommand::BallBlockBounce,
        AudioCommand::BallWallBounce,
        AudioCommand::LevelWin,
        AudioCommand::BallBlockBounce,
        AudioCommand::BallWallBounce,
    ];
    assert_eq!(
        unique_commands(&buffer),
        vec![AudioCommand::BallWallBounce, AudioCommand::BallBlockBounce, AudioCommand::LevelWin]
    );
    assert!(unique_commands(&Vec::new()).is_empty());
    assert!(contains_command(&buffer, AudioCommand::LevelWin));
    assert!(!contains_command(&buffer, AudioCommand::BallDrop));
}

#[test]
fn every_cue_has_its_sound() {
    assert_eq!(sound_for_command(AudioCommand::BallWallBounce, 0), SoundEffect::BallWallBounce);
    assert_eq!(
        sound_for_command(AudioCommand::BallSturdyBlockBounce, 1),
        SoundEffect::BallSturdyBlockBounce
    );
    assert_eq!(sound_for_command(AudioCommand::BallPaddleBounce, 2), SoundEffect::BallHitPaddle);
    assert_eq!(sound_for_command(AudioCommand::LevelStart, 3), SoundEffect::LevelStart);
    assert_eq!(sound_for_command(AudioCommand::LevelWin, 0), SoundEffect::LevelWin);
    assert_eq!(sound_for_command(AudioCommand::BallDrop, 0), SoundEffect::BallDrop);
}

#[test]
fn a_bounce_off_a_block_has_four_sounds() {
    assert_eq!(sound_for_command(AudioCommand::BallBlockBounce, 0), SoundEffect::BallBounce1);
    assert_eq!(sound_for_command(AudioCommand::BallBlockBounce, 1), SoundEffect::BallBounce2);
    assert_eq!(sound_for_command(AudioCommand::BallBlockBounce, 2), SoundEffect::BallBounce3);
    assert_eq!(sound_for_command(AudioCommand::BallBlockBounce, 3), SoundEffect::BallBounce4);
    assert_eq!(sound_for_command(AudioCommand::BallBlockBounce, 17), SoundEffect::BallBounce4);
}

#[test]
fn one_sound_is_played_for_each_kind_of_cue() {
    let buffer = vec![
        AudioCommand::BallPaddleBounce,
        AudioCommand::BallBlockBounce,
        AudioCommand::BallPaddleBounce,
        AudioCommand::BallBlockBounce,
        AudioCommand::BallDrop,
    ];
    let bounces = [
        SoundEffect::BallBounce1,
        SoundEffect::BallBounce2,
        SoundEffect::BallBounce3,
        SoundEffect::BallBounce4,
    ];
    let mut seen = [false; 4];
    for _ in 0..400 {
        let sounds = execute_audio_command_buffer(&buffer);
        assert_eq!(sounds.len(), 3);
        assert_eq!(sounds[0], SoundEffect::BallHitPaddle);
        assert_eq!(sounds[2], SoundEffect::BallDrop);
        let variant = bounces.iter().position(|b| *b == sounds[1]).expect("a bounce sound");
        seen[variant] = true;
    }
    assert!(seen.iter().all(|s| *s));
    assert!(execute_audio_command_buffer(&Vec::new()).is_empty());
}

#[test]
fn sound_effects_are_numbered_in_order() {
    let all = SoundEffect::all();
    assert_eq!(all.len(), SOUND_EFFECT_COUNT);
    assert_eq!(all.len(), 17);
    for (i, effect) in all.iter().enumerate() {
        assert_eq!(effect.index(), i);
    }
    assert_eq!(SoundEffect::Confirm.index(), 0);
    assert_eq!(SoundEffect::BallBounce1.index(), 6);
    assert_eq!(SoundEffect::LevelLost.index(), 16);
}

#[test]
fn sound_file_names() {
    assert_eq!(get_sound_file_name(SoundEffect::Confirm), "confirm");
    assert_eq!(get_sound_file_name(SoundEffect::SuperConfirm), "super_confirm");
    assert_eq!(get_sound_file_name(SoundEffect::SmallLaser), "small_laser");
    assert_eq!(get_sound_file_name(SoundEffect::ExplosionOne), "explosion_1");
    assert_eq!(get_sound_file_name(SoundEffect::ExplosionTwo), "explosion_2");
    assert_eq!(get_sound_file_name(SoundEffect::ExplosionThree), "explosion_3");
    assert_eq!(get_sound_file_name(SoundEffect::BallBounce1), "ball_bounce_1");
    assert_eq!(get_sound_file_name(SoundEffect::BallBounce2), "ball_bounce_2");
    assert_eq!(get_sound_file_name(SoundEffect::BallBounce3), "ball_bounce_3");
    assert_eq!(get_sound_file_name(SoundEffect::BallBounce4), "ball_bounce_4");
    assert_eq!(
        get_sound_file_name(SoundEffect::BallSturdyBlockBounce),
        "sturdy_block_bounced_on"
    );
    assert_eq!(get_sound_file_name(SoundEffect::BallHitPaddle), "ball_hit_paddle");
    assert_eq!(get_sound_file_name(SoundEffect::BallWallBounce), "ball_wall_bounce");
    assert_eq!(get_sound_file_name(SoundEffect::BallDrop), "ball_drop");
    assert_eq!(get_sound_file_name(SoundEffect::LevelStart), "level_start");
    assert_eq!(get_sound_file_name(SoundEffect::LevelWin), "level_win");
    assert_eq!(get_sound_file_name(SoundEffect::LevelLost), "level_loss");
}

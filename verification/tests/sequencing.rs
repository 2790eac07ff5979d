//! The sequencer: event consumption, note expiry, loop wrap, and the voice
//! commands each tick yields.

use organyacat::sequencer::song_freqs_fit;
use organyacat::{Event, Player, VoiceCmd, PROPERTY_UNUSED};

fn event(position: u32, pitch: u8, length: u8, volume: u8, pan: u8) -> Event {
    Event { position, pitch, length, volume, pan }
}

/// A default player whose melody channel 0 holds the given events.
fn player_with_melody(events: Vec<Event>) -> Player {
    let mut player = Player::default();
    player.song.channels[0].events = events;
    player
}

#[test]
fn seek_selects_first_event_at_or_after() {
    let mut player = player_with_melody(vec![
        event(3, 40, 4, 255, 255),
        event(7, 41, 4, 255, 255),
    ]);
    player.seek(5);
    assert_eq!(player.melodies[0].index, 1);
    assert_eq!(player.position, 5);
    assert_eq!(player.last_position, 5);
    player.seek(0);
    assert_eq!(player.melodies[0].index, 0);
    player.seek(9);
    // Nothing lies at or after 9: the last index is kept.
    assert_eq!(player.melodies[0].index, 1);
    // A channel without events stays at 0.
    assert_eq!(player.melodies[1].index, 0);
}

#[test]
fn note_on_retunes_every_group_and_starts_the_voice() {
    let mut player = player_with_melody(vec![event(0, 45, 4, 255, 255)]);
    let cmds = player.tick();
    // Pitch 45: scale degree 9 (440 Hz base), octave group 3.
    let expected = [14080u16, 28160, 28160, 56320, 56320, 56320, 56320, 56320];
    assert_eq!(cmds.len(), 9);
    for g in 0..8u8 {
        assert_eq!(
            cmds[g as usize],
            VoiceCmd::MelodyFrequency { channel: 0, group: g, frequency: expected[g as usize] }
        );
    }
    assert_eq!(cmds[8], VoiceCmd::MelodyPlay { channel: 0, group: 3, alt: 0, looping: true });
    assert_eq!(player.melodies[0].pitch, 45);
    assert_eq!(player.melodies[0].ticks, 3); // expiry took the first tick
    assert_eq!(player.melodies[0].index, 1);
    assert_eq!(player.position, 1);
    assert_eq!(player.last_position, 0);
}

#[test]
fn finetune_shifts_the_frequency() {
    let mut player = player_with_melody(vec![event(0, 45, 4, 255, 255)]);
    player.song.channels[0].finetune = 1500;
    let cmds = player.tick();
    assert_eq!(cmds[0], VoiceCmd::MelodyFrequency { channel: 0, group: 0, frequency: 14580 });
}

#[test]
fn sentinel_pitch_leaves_the_voice_untouched() {
    let mut player = player_with_melody(vec![
        event(0, 45, 4, 255, 255),
        event(1, PROPERTY_UNUSED, 1, 100, 255),
    ]);
    player.tick();
    let cmds = player.tick();
    // Only a volume ramp: no play, no retuning, no pair switch.
    assert_eq!(cmds.len(), 1);
    assert_eq!(
        cmds[0],
        VoiceCmd::MelodyVolume { channel: 0, group: 3, alt: 0, volume_db: -1416 }
    );
    assert_eq!(player.melodies[0].pitch, 45);
    assert_eq!(player.melodies[0].alt, 0);
}

#[test]
fn note_of_length_one_releases_one_tick_later() {
    let mut player = player_with_melody(vec![event(0, 45, 1, 255, 255)]);
    player.tick();
    assert_eq!(player.melodies[0].pitch, 45);
    assert_eq!(player.melodies[0].ticks, 0);
    let cmds = player.tick();
    assert_eq!(cmds.len(), 1);
    assert_eq!(cmds[0], VoiceCmd::MelodyStop { channel: 0, group: 3, alt: 0 });
    assert_eq!(player.melodies[0].pitch, PROPERTY_UNUSED);
}

#[test]
fn legato_retrigger_stops_the_old_voice_and_switches_pairs() {
    let mut player = player_with_melody(vec![
        event(0, 45, 8, 255, 255),
        event(2, 47, 8, 255, 255),
    ]);
    player.tick();
    player.tick();
    let cmds = player.tick();
    // The old voice stops (its silence tail begins), the other pair half
    // starts looping.
    assert_eq!(cmds[0], VoiceCmd::MelodyStop { channel: 0, group: 3, alt: 0 });
    assert_eq!(
        cmds[9],
        VoiceCmd::MelodyPlay { channel: 0, group: 3, alt: 1, looping: true }
    );
    assert_eq!(player.melodies[0].alt, 1);
    assert_eq!(player.melodies[0].pitch, 47);
}

#[test]
fn pizzicato_retrigger_reuses_the_same_voice() {
    let mut player = player_with_melody(vec![
        event(0, 45, 10, 255, 255),
        event(4, 45, 10, 255, 255),
    ]);
    player.song.channels[0].pizzicato = true;
    let first = player.tick();
    assert_eq!(
        *first.last().unwrap(),
        VoiceCmd::MelodyPlay { channel: 0, group: 3, alt: 0, looping: false }
    );
    assert_eq!(player.melodies[0].alt, 0);
    player.tick();
    player.tick();
    player.tick();
    let cmds = player.tick(); // tick 4: the retrigger
    // No stop is issued and the pair half does not switch: the retuning
    // commands open the tick and the same voice retriggers one-shot.
    assert!(matches!(cmds[0], VoiceCmd::MelodyFrequency { .. }));
    assert_eq!(
        *cmds.last().unwrap(),
        VoiceCmd::MelodyPlay { channel: 0, group: 3, alt: 0, looping: false }
    );
    assert_eq!(player.melodies[0].alt, 0);
    // A pizzicato note is never released by expiry.
    assert_eq!(player.melodies[0].pitch, 45);
}

#[test]
fn reaching_repeat_end_wraps_to_repeat_start() {
    let mut player = player_with_melody(vec![
        event(5, 45, 4, 255, 255),
        event(12, 47, 4, 255, 255),
    ]);
    player.song.repeat_start = 10;
    player.song.repeat_end = 20;
    player.position = 19;
    player.last_position = 18;
    player.tick();
    assert_eq!(player.position, 10);
    assert_eq!(player.last_position, 19);
    // The channel is re-pointed at its first event at or after 10.
    assert_eq!(player.melodies[0].index, 1);
}

#[test]
fn degenerate_repeat_end_wraps_immediately() {
    let mut player = Player::default();
    player.song.repeat_end = 0;
    let cmds = player.tick();
    assert!(cmds.is_empty());
    assert_eq!(player.position, 0);
    assert_eq!(player.last_position, 0);
    player.tick();
    assert_eq!(player.position, 0);
}

#[test]
fn percussion_note_on_stops_retunes_and_plays() {
    let mut player = Player::default();
    player.song.channels[8].events = vec![event(0, 40, 1, 255, 255)];
    let cmds = player.tick();
    assert_eq!(cmds.len(), 3);
    assert_eq!(cmds[0], VoiceCmd::PercussionStop { channel: 0 });
    assert_eq!(cmds[1], VoiceCmd::PercussionFrequency { channel: 0, frequency: 32100 });
    assert_eq!(cmds[2], VoiceCmd::PercussionPlay { channel: 0 });
    assert_eq!(player.percussions[0].pitch, 40);
    assert_eq!(player.percussions[0].index, 1);
}

#[test]
fn percussion_volume_and_centered_pan() {
    let mut player = Player::default();
    player.song.channels[8].events = vec![event(0, PROPERTY_UNUSED, 1, 127, 6)];
    let cmds = player.tick();
    assert_eq!(cmds.len(), 2);
    assert_eq!(cmds[0], VoiceCmd::PercussionVolume { channel: 0, volume_db: -1240 });
    // Pan step 6 is acoustically centered: 0 dB for both ears.
    assert_eq!(cmds[1], VoiceCmd::PercussionPan { channel: 0, pan_db: 0 });
}

#[test]
fn muted_channel_consumes_nothing() {
    let mut player = player_with_melody(vec![event(0, 45, 4, 255, 255)]);
    player.melodies[0].muted = true;
    let cmds = player.tick();
    assert!(cmds.is_empty());
    assert_eq!(player.melodies[0].index, 0);
    assert_eq!(player.melodies[0].pitch, PROPERTY_UNUSED);
}

#[test]
fn frequencies_out_of_voice_range_are_detected() {
    let mut player = player_with_melody(vec![event(0, 59, 4, 255, 255)]);
    assert!(song_freqs_fit(&player.song));
    player.song.channels[0].finetune = 65535;
    assert!(!song_freqs_fit(&player.song));
    // A percussion pitch of 82 or more overruns the 16-bit frequency too.
    let mut player = Player::default();
    player.song.channels[8].events = vec![event(0, 82, 1, 255, 255)];
    assert!(!song_freqs_fit(&player.song));
    player.song.channels[8].events = vec![event(0, 81, 1, 255, 255)];
    assert!(song_freqs_fit(&player.song));
}

//! The fixed tables, decibel formulas, byte cursor and default states.

use organyacat::tables::{melody_frequency, pan_db, perc_frequency, volume_db};
use organyacat::{Player, ReadCursor, PROPERTY_UNUSED};

#[test]
fn volume_decibel_formula() {
    assert_eq!(volume_db(127), -1240);
    assert_eq!(volume_db(0), -2040);
    assert_eq!(volume_db(254), -440);
}

#[test]
fn pan_decibel_formula() {
    assert_eq!(pan_db(0), -2560);
    assert_eq!(pan_db(6), 0);
    assert_eq!(pan_db(12), 2560);
}

#[test]
fn melody_frequency_formula() {
    // Group 0 at pitch 0 (262 Hz base): 256 * 262 / 8 = 8384.
    assert_eq!(melody_frequency(0, 0, 1000), 8384);
    // Group 7 at scale degree 11 (494 Hz base): 8 * 494 * 128 / 8 = 63232.
    assert_eq!(melody_frequency(7, 11, 1000), 63232);
    // Finetune adds to the result; 1000 means no detune.
    assert_eq!(melody_frequency(0, 0, 1500), 8884);
    assert_eq!(melody_frequency(0, 0, 500), 7884);
    // The pitch acts through its scale degree alone.
    assert_eq!(melody_frequency(0, 24, 1000), 8384);
}

#[test]
fn percussion_frequency_formula() {
    assert_eq!(perc_frequency(0), 100);
    assert_eq!(perc_frequency(40), 32100);
    assert_eq!(perc_frequency(81), 64900);
    assert_eq!(perc_frequency(95), 76100);
}

#[test]
fn cursor_reads_little_endian_values() {
    let data = [1u8, 2, 3, 4, 5, 6, 7];
    let mut read = ReadCursor(&data);
    assert_eq!(read.next_u8(), Some(1));
    assert_eq!(read.next_u16_le(), Some(0x0302));
    assert_eq!(read.next_u32_le(), Some(0x07060504));
    assert_eq!(read.next_u8(), None);
    assert_eq!(read.next_u16_le(), None);
    assert_eq!(read.next_u32_le(), None);
}

#[test]
fn cursor_peeks_at_offsets() {
    let data = [1u8, 2, 3, 4, 5, 6, 7];
    let read = ReadCursor(&data);
    assert_eq!(read.u8_at(2), 3);
    assert_eq!(read.u16_le_at(1), 0x0302);
    assert_eq!(read.u32_le_at(3), 0x07060504);
}

#[test]
fn cursor_takes_and_skips_blocks() {
    let data = [1u8, 2, 3, 4, 5];
    let mut read = ReadCursor(&data);
    assert_eq!(read.next_bytes::<2>(), Some(&[1u8, 2][..]));
    read.skip(1);
    assert_eq!(read.next_n_bytes(2), &[4, 5]);
    assert_eq!(read.next_bytes::<1>(), None);
}

#[test]
fn default_player_state() {
    let player = Player::default();
    assert_eq!(player.sample_rate, 44100);
    assert_eq!(player.volume_ramp, 176);
    assert_eq!(player.position, 0);
    assert_eq!(player.song.tempo_ms, 125);
    assert_eq!(player.song.repeat_start, 0);
    assert_eq!(player.song.repeat_end, 1600);
    for m in &player.melodies {
        assert_eq!(m.pitch, PROPERTY_UNUSED);
        assert_eq!(m.volume, 200);
        assert_eq!(m.pan, 6);
        assert_eq!(m.alt, 0);
        assert!(!m.muted);
    }
    for p in &player.percussions {
        assert_eq!(p.pitch, PROPERTY_UNUSED);
        assert_eq!(p.volume, 200);
        assert_eq!(p.pan, 6);
    }
    // The default song's instrument layout.
    let instruments: Vec<u8> = player.song.channels.iter().map(|c| c.instrument).collect();
    assert_eq!(
        instruments,
        vec![0, 11, 22, 33, 44, 55, 66, 77, 0, 2, 5, 6, 4, 8, 0, 0]
    );
    for c in &player.song.channels {
        assert_eq!(c.finetune, 1000);
        assert!(!c.pizzicato);
        assert!(c.events.is_empty());
    }
}

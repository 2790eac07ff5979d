//! Loading songs and soundbanks from bytes.

use organyacat::{OrgError, Player, PROPERTY_UNUSED};

fn song_header(version: &[u8; 2], tempo: u16, rs: u32, re: u32) -> Vec<u8> {
    let mut d = Vec::new();
    d.extend_from_slice(b"Org-");
    d.extend_from_slice(version);
    d.extend_from_slice(&tempo.to_le_bytes());
    d.push(4);
    d.push(4);
    d.extend_from_slice(&rs.to_le_bytes());
    d.extend_from_slice(&re.to_le_bytes());
    d
}

fn push_channel_header(d: &mut Vec<u8>, finetune: u16, instrument: u8, pizzicato: u8, count: u16) {
    d.extend_from_slice(&finetune.to_le_bytes());
    d.push(instrument);
    d.push(pizzicato);
    d.extend_from_slice(&count.to_le_bytes());
}

fn push_events(d: &mut Vec<u8>, events: &[(u32, u8, u8, u8, u8)]) {
    for e in events {
        d.extend_from_slice(&e.0.to_le_bytes());
    }
    for e in events {
        d.push(e.1);
    }
    for e in events {
        d.push(e.2);
    }
    for e in events {
        d.push(e.3);
    }
    for e in events {
        d.push(e.4);
    }
}

/// A song whose channel 0 holds the given events; the other channels are
/// empty, every channel has finetune 1000 and instrument 0.
fn simple_song(events0: &[(u32, u8, u8, u8, u8)]) -> Vec<u8> {
    let mut d = song_header(b"02", 125, 0, 1600);
    push_channel_header(&mut d, 1000, 0, 0, events0.len() as u16);
    for _ in 1..16 {
        push_channel_header(&mut d, 1000, 0, 0, 0);
    }
    push_events(&mut d, events0);
    d
}

fn bank_bytes(overrides: &[(usize, u8)], records: &[&[u8]]) -> Vec<u8> {
    let mut d = vec![0u8; 25600];
    for &(i, v) in overrides {
        d[i] = v;
    }
    for i in 0..42 {
        if i < records.len() {
            let r = records[i];
            d.extend_from_slice(&(r.len() as u32).to_le_bytes());
            d.extend_from_slice(r);
        } else {
            d.extend_from_slice(&0u32.to_le_bytes());
        }
    }
    d
}

#[test]
fn soundbank_too_short_is_malformed() {
    let mut player = Player::default();
    let r = player.read_soundbank(&vec![0u8; 25599]);
    assert!(matches!(r, Err(OrgError::Malformed)));
}

#[test]
fn soundbank_minimal_loads() {
    let mut player = Player::default();
    let r = player.read_soundbank(&bank_bytes(&[], &[]));
    assert!(r.is_ok());
    assert_eq!(player.melody_wave_data.len(), 25600);
    assert_eq!(player.percussion_wave_data.len(), 42);
    assert!(player.percussion_wave_data.iter().all(|w| w.is_empty()));
}

#[test]
fn soundbank_bytes_are_reinterpreted_signed() {
    let mut player = Player::default();
    let data = bank_bytes(&[(0, 200), (1, 5)], &[&[0, 128, 255]]);
    player.read_soundbank(&data).unwrap();
    assert_eq!(player.melody_wave_data[0], -56);
    assert_eq!(player.melody_wave_data[1], 5);
    assert_eq!(player.percussion_wave_data[0], vec![0, -128, -1]);
    assert_eq!(player.percussion_wave_data[1], Vec::<i8>::new());
}

#[test]
fn soundbank_truncated_record_is_malformed() {
    let mut player = Player::default();
    let mut data = bank_bytes(&[], &[]);
    // The first record claims 8 bytes that are not there.
    data[25600..25604].copy_from_slice(&8u32.to_le_bytes());
    let r = player.read_soundbank(&data);
    assert!(matches!(r, Err(OrgError::Malformed)));
}

#[test]
fn bad_magic_is_malformed() {
    let mut player = Player::default();
    let mut data = simple_song(&[]);
    data[0..4].copy_from_slice(b"Foo-");
    assert!(matches!(player.read_song(&data), Err(OrgError::Malformed)));
}

#[test]
fn version_zero_fails_version_two_succeeds() {
    let mut player = Player::default();
    let mut data = simple_song(&[]);
    data[4..6].copy_from_slice(b"00");
    assert!(matches!(player.read_song(&data), Err(OrgError::Malformed)));
    data[4..6].copy_from_slice(b"02");
    assert!(player.read_song(&data).is_ok());
}

#[test]
fn version_needs_ascii_digits() {
    let mut player = Player::default();
    let mut data = simple_song(&[]);
    data[4..6].copy_from_slice(b"!2");
    assert!(matches!(player.read_song(&data), Err(OrgError::Malformed)));
}

#[test]
fn short_song_is_malformed() {
    let mut player = Player::default();
    assert!(matches!(player.read_song(&vec![0u8; 113]), Err(OrgError::Malformed)));
}

#[test]
fn truncated_event_table_is_malformed() {
    let mut player = Player::default();
    let mut data = simple_song(&[(0, 45, 4, 255, 255)]);
    data.truncate(114 + 7);
    assert!(matches!(player.read_song(&data), Err(OrgError::Malformed)));
}

#[test]
fn failed_load_leaves_player_intact() {
    let mut player = Player::default();
    let mut data = simple_song(&[]);
    data[0] = b'X';
    let _ = player.read_song(&data);
    assert_eq!(player.song.tempo_ms, 125);
    assert_eq!(player.song.repeat_end, 1600);
}

#[test]
fn header_fields_are_parsed() {
    let mut player = Player::default();
    let mut d = song_header(b"02", 130, 10, 20);
    push_channel_header(&mut d, 1005, 3, 1, 0);
    push_channel_header(&mut d, 1000, 100, 0, 0); // melody instrument out of range
    for _ in 2..8 {
        push_channel_header(&mut d, 1000, 0, 0, 0);
    }
    push_channel_header(&mut d, 995, 42, 0, 0); // percussion instrument out of range
    for _ in 9..16 {
        push_channel_header(&mut d, 1000, 0, 0, 0);
    }
    player.read_song(&d).unwrap();
    assert_eq!(player.song.tempo_ms, 130);
    assert_eq!(player.song.repeat_start, 10);
    assert_eq!(player.song.repeat_end, 20);
    assert_eq!(player.song.channels[0].finetune, 1005);
    assert_eq!(player.song.channels[0].instrument, 3);
    assert!(player.song.channels[0].pizzicato);
    assert_eq!(player.song.channels[1].instrument, 0);
    assert_eq!(player.song.channels[8].finetune, 995);
    assert_eq!(player.song.channels[8].instrument, 0);
}

#[test]
fn version_one_has_no_pizzicato() {
    let mut player = Player::default();
    let mut d = song_header(b"01", 125, 0, 1600);
    push_channel_header(&mut d, 1000, 0, 1, 0);
    for _ in 1..16 {
        push_channel_header(&mut d, 1000, 0, 0, 0);
    }
    player.read_song(&d).unwrap();
    assert!(!player.song.channels[0].pizzicato);
}

#[test]
fn events_are_read_column_major_and_normalized() {
    let mut player = Player::default();
    let data = simple_song(&[
        (0, 96, 0, 10, 13),   // pitch 96 -> unused, length 0 -> 1, pan 13 -> 6
        (7, 45, 8, 255, 255), // sentinels stay
    ]);
    player.read_song(&data).unwrap();
    let events = &player.song.channels[0].events;
    assert_eq!(events.len(), 2);
    assert_eq!(events[0].position, 0);
    assert_eq!(events[0].pitch, PROPERTY_UNUSED);
    assert_eq!(events[0].length, 1);
    assert_eq!(events[0].volume, 10);
    assert_eq!(events[0].pan, 6);
    assert_eq!(events[1].position, 7);
    assert_eq!(events[1].pitch, 45);
    assert_eq!(events[1].length, 8);
    assert_eq!(events[1].volume, 255);
    assert_eq!(events[1].pan, 255);
}

#[test]
fn event_tables_of_several_channels_follow_each_other() {
    let mut player = Player::default();
    let mut d = song_header(b"02", 125, 0, 1600);
    let ch0 = [(0u32, 40u8, 4u8, 1u8, 2u8), (9, 41, 5, 3, 4)];
    let ch3 = [(2u32, 50u8, 6u8, 7u8, 8u8)];
    let ch9 = [(5u32, 30u8, 1u8, 9u8, 10u8), (6, 31, 1, 11, 12), (8, 32, 1, 13, 3)];
    for i in 0..16 {
        let count = match i {
            0 => ch0.len(),
            3 => ch3.len(),
            9 => ch9.len(),
            _ => 0,
        };
        push_channel_header(&mut d, 1000, 0, 0, count as u16);
    }
    push_events(&mut d, &ch0);
    push_events(&mut d, &ch3);
    push_events(&mut d, &ch9);
    player.read_song(&d).unwrap();
    assert_eq!(player.song.channels[0].events.len(), 2);
    assert_eq!(player.song.channels[3].events.len(), 1);
    assert_eq!(player.song.channels[9].events.len(), 3);
    let e = player.song.channels[0].events[1];
    assert_eq!((e.position, e.pitch, e.length, e.volume, e.pan), (9, 41, 5, 3, 4));
    let e = player.song.channels[3].events[0];
    assert_eq!((e.position, e.pitch, e.length, e.volume, e.pan), (2, 50, 6, 7, 8));
    let e = player.song.channels[9].events[2];
    assert_eq!((e.position, e.pitch, e.length, e.volume, e.pan), (8, 32, 1, 13, 3));
    for i in [1, 2, 4, 5, 6, 7, 8, 10, 11, 12, 13, 14, 15] {
        assert!(player.song.channels[i].events.is_empty());
    }
}

#[test]
fn percussion_records_follow_their_length_prefixes() {
    let mut player = Player::default();
    let data = bank_bytes(&[], &[&[1, 2, 3], &[4, 5]]);
    player.read_soundbank(&data).unwrap();
    assert_eq!(player.percussion_wave_data[0], vec![1, 2, 3]);
    assert_eq!(player.percussion_wave_data[1], vec![4, 5]);
    assert_eq!(player.percussion_wave_data[2], Vec::<i8>::new());
}

#[test]
fn read_song_builds_wavetables() {
    let mut player = Player::default();
    // Instrument 0's waveform: sample k holds k as a signed byte.
    let mut overrides = Vec::new();
    for k in 0..128 {
        overrides.push((k as usize, k as u8));
    }
    player.read_soundbank(&bank_bytes(&overrides, &[&[0, 128, 255]])).unwrap();
    player.read_song(&simple_song(&[])).unwrap();
    // Group 0: period 256, stride 1 -> the waveform itself.
    assert_eq!(player.melody_waves[0].len(), 256);
    assert_eq!(player.melody_waves[0][5], 5);
    // Group 7: period 8, stride 32 -> every 32nd sample.
    assert_eq!(player.melody_waves[7].len(), 8);
    assert_eq!(player.melody_waves[7][0], 0);
    assert_eq!(player.melody_waves[7][1], 32);
    assert_eq!(player.melody_waves[7][2], 64);
    // Percussion channel 8 uses instrument 0: bytes recentered to signed.
    assert_eq!(player.percussion_waves[0], vec![-128, 0, 127]);
}

#[test]
fn pizzicato_wavetable_is_retiled() {
    let mut player = Player::default();
    let mut overrides = Vec::new();
    for k in 0..256 {
        overrides.push((k as usize, k as u8));
    }
    player.read_soundbank(&bank_bytes(&overrides, &[])).unwrap();
    let mut d = song_header(b"02", 125, 0, 1600);
    push_channel_header(&mut d, 1000, 0, 1, 0);
    for _ in 1..16 {
        push_channel_header(&mut d, 1000, 0, 0, 0);
    }
    player.read_song(&d).unwrap();
    // Group 0, pizzicato: period 256 retiled by 4 -> 1024 samples, wrapping.
    assert_eq!(player.melody_waves[0].len(), 1024);
    assert_eq!(player.melody_waves[0][5], 5);
    assert_eq!(player.melody_waves[0][256 + 5], 5);
    // Group 7, pizzicato: period 8 retiled by 32 -> 256 samples.
    assert_eq!(player.melody_waves[7].len(), 256);
    assert_eq!(player.melody_waves[7][8], 0);
    assert_eq!(player.melody_waves[7][9], 32);
}

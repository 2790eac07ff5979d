//! The player: song and soundbank state, the per-channel carrier state the
//! sequencer drives, and the loaders that fill them from bytes.

use vstd::prelude::*;

use crate::OrgError;
use crate::PROPERTY_UNUSED;
use crate::read_cursor::ReadCursor;
use crate::song::{
    Channel, Event, Song, chan_events, chan_instrument, chan_pizzicato, channel_matches, song_matches,
    song_ok,
};
use crate::soundbank::{
    as_signed, cast_bytes_signed, flip_sample, flip_signed, lemma_perc_off_mono, melody_bank,
    perc_len, perc_off, perc_slot, perc_wave, soundbank_ok,
};
use crate::tables::{size_table, spec_size_table};

verus! {

/// Carrier state of one melody channel: the last event fields taken, the
/// remaining note length, and which voice of the active pair plays.
#[derive(Clone, Copy, PartialEq, Eq, Structural, Debug)]
pub struct Melody {
    /// Active pitch, or `PROPERTY_UNUSED` when released.
    pub pitch: u8,
    /// Last volume taken from an event.
    pub volume: u8,
    /// Last pan taken from an event.
    pub pan: u8,
    /// Index of the next event to consume.
    pub index: usize,
    /// Remaining note duration in ticks.
    pub ticks: u32,
    /// Which voice of the active pair plays (0 or 1).
    pub alt: u8,
    /// A muted channel consumes no events.
    pub muted: bool,
}

/// Carrier state of one percussion channel.
#[derive(Clone, Copy, PartialEq, Eq, Structural, Debug)]
pub struct Percussion {
    /// Last pitch taken from an event.
    pub pitch: u8,
    /// Last volume taken from an event.
    pub volume: u8,
    /// Last pan taken from an event.
    pub pan: u8,
    /// Index of the next event to consume.
    pub index: usize,
    /// A muted channel consumes no events.
    pub muted: bool,
}

/// One operation the sequencer asks of a voice of the mixer. Melody voices
/// are addressed by channel (0..8), octave group (0..8) and pair half (0..2);
/// percussion voices by channel (0..8) alone.
#[derive(Clone, Copy, PartialEq, Eq, Structural, Debug)]
pub enum VoiceCmd {
    /// Set the playback frequency of both voices of a melody pair.
    MelodyFrequency {
        /// Melody channel.
        channel: u8,
        /// Octave group.
        group: u8,
        /// New frequency in Hz.
        frequency: u16,
    },
    /// Start one melody voice; non-looping playback is one-shot.
    MelodyPlay {
        /// Melody channel.
        channel: u8,
        /// Octave group.
        group: u8,
        /// Pair half.
        alt: u8,
        /// Keep wrapping around the wavetable, or run off its end once.
        looping: bool,
    },
    /// Stop one melody voice: playback ends and its silence tail begins.
    MelodyStop {
        /// Melody channel.
        channel: u8,
        /// Octave group.
        group: u8,
        /// Pair half.
        alt: u8,
    },
    /// Ramp one melody voice to a new volume.
    MelodyVolume {
        /// Melody channel.
        channel: u8,
        /// Octave group.
        group: u8,
        /// Pair half.
        alt: u8,
        /// Target volume in centidecibels (-10000 silence, 0 unity).
        volume_db: i16,
    },
    /// Ramp one melody voice to a new pan position.
    MelodyPan {
        /// Melody channel.
        channel: u8,
        /// Octave group.
        group: u8,
        /// Pair half.
        alt: u8,
        /// Signed pan in centidecibels; negative attenuates the right ear.
        pan_db: i16,
    },
    /// Stop a percussion voice (begin its silence tail).
    PercussionStop {
        /// Percussion channel.
        channel: u8,
    },
    /// Set the playback frequency of a percussion voice.
    PercussionFrequency {
        /// Percussion channel.
        channel: u8,
        /// New frequency in Hz.
        frequency: u16,
    },
    /// Start a percussion voice, one-shot.
    PercussionPlay {
        /// Percussion channel.
        channel: u8,
    },
    /// Ramp a percussion voice to a new volume.
    PercussionVolume {
        /// Percussion channel.
        channel: u8,
        /// Target volume in centidecibels.
        volume_db: i16,
    },
    /// Ramp a percussion voice to a new pan position.
    PercussionPan {
        /// Percussion channel.
        channel: u8,
        /// Signed pan in centidecibels.
        pan_db: i16,
    },
}

/// The sequencer and the data it plays from. The floating-point voices that
/// render audio live outside; they are driven by the commands `tick` returns
/// and by the wavetables built at load time.
pub struct Player {
    /// The loaded song.
    pub song: Song,
    /// Current song position in ticks.
    pub position: u32,
    /// Song position at the previous tick.
    pub last_position: u32,
    /// Samples a volume or pan ramp takes (sample rate / 250).
    pub volume_ramp: u16,
    /// Output sample rate in Hz.
    pub sample_rate: u16,
    /// The eight melody carriers.
    pub melodies: Vec<Melody>,
    /// The eight percussion carriers.
    pub percussions: Vec<Percussion>,
    /// The 100 melody wavetables of the soundbank, 256 signed samples each.
    pub melody_wave_data: Vec<i8>,
    /// The 42 percussion samples of the soundbank, as stored.
    pub percussion_wave_data: Vec<Vec<i8>>,
    /// Wavetable of each melody voice pair, indexed channel * 8 + group.
    pub melody_waves: Vec<Vec<i8>>,
    /// Wavetable of each percussion voice, one per channel.
    pub percussion_waves: Vec<Vec<i8>>,
}

/// An event as load-time normalization leaves it.
pub open spec fn event_wf(e: Event) -> bool {
    &&& e.pitch < 96 || e.pitch == PROPERTY_UNUSED
    &&& e.pan <= 12 || e.pan == PROPERTY_UNUSED
    &&& e.length >= 1
}

/// A song as loading leaves it: 16 channels, coerced instruments, normalized
/// events.
pub open spec fn song_wf(s: Song) -> bool {
    &&& s.channels@.len() == 16
    &&& forall|i: int| 0 <= i < 8 ==> (#[trigger] s.channels@[i]).instrument < 100
    &&& forall|i: int| 8 <= i < 16 ==> (#[trigger] s.channels@[i]).instrument < 42
    &&& forall|i: int, j: int|
        0 <= i < 16 && 0 <= j < s.channels@[i].events@.len() ==> event_wf(
            #[trigger] s.channels@[i].events@[j],
        )
}

/// Carrier state consistent with its channel.
pub open spec fn melody_wf(m: Melody, ch: Channel) -> bool {
    &&& m.index <= ch.events@.len()
    &&& m.pitch < 96 || m.pitch == PROPERTY_UNUSED
    &&& m.pan <= 12
    &&& m.alt <= 1
}

/// Percussion carrier state consistent with its channel.
pub open spec fn perc_wf(p: Percussion, ch: Channel) -> bool {
    &&& p.index <= ch.events@.len()
    &&& p.pitch < 96 || p.pitch == PROPERTY_UNUSED
    &&& p.pan <= 12
}

/// Index of the first event at or after `pos`, scanning from `j`; the last
/// index when none is there, 0 when there are no events.
pub open spec fn seek_from(events: Seq<Event>, pos: u32, j: int) -> int
    decreases events.len() - j,
{
    if j < 0 || j >= events.len() {
        if events.len() == 0 {
            0
        } else {
            events.len() - 1
        }
    } else if events[j].position >= pos {
        j
    } else {
        seek_from(events, pos, j + 1)
    }
}

/// Index of the first event with position at or after `pos`; the last index
/// when none is there, 0 when there are no events.
pub open spec fn seek_index(events: Seq<Event>, pos: u32) -> int {
    seek_from(events, pos, 0)
}

/// `seek_from` lands inside the event list, or at 0 when it is empty.
pub proof fn lemma_seek_from_bounds(events: Seq<Event>, pos: u32, j: int)
    requires
        0 <= j,
    ensures
        0 <= seek_from(events, pos, j),
        seek_from(events, pos, j) <= events.len(),
        events.len() > 0 ==> seek_from(events, pos, j) < events.len(),
    decreases events.len() - j,
{
    if !(j < 0 || j >= events.len()) && !(events[j].position >= pos) {
        lemma_seek_from_bounds(events, pos, j + 1);
    }
}

impl Player {
    /// Structural well-formedness: the sizes every operation relies on, and
    /// the per-channel carrier invariants.
    pub open spec fn wf(self) -> bool {
        &&& song_wf(self.song)
        &&& self.melodies@.len() == 8
        &&& self.percussions@.len() == 8
        &&& self.melody_wave_data@.len() == 25600
        &&& self.percussion_wave_data@.len() == 42
        &&& self.melody_waves@.len() == 64
        &&& self.percussion_waves@.len() == 8
        &&& forall|i: int|
            0 <= i < 8 ==> melody_wf(#[trigger] self.melodies@[i], self.song.channels@[i])
        &&& forall|i: int|
            0 <= i < 8 ==> perc_wf(#[trigger] self.percussions@[i], self.song.channels@[8 + i])
    }
}

/// Instrument a channel starts out with before a song is loaded.
pub open spec fn default_instrument(i: int) -> u8 {
    if 0 <= i < 8 {
        (11 * i) as u8
    } else if i == 9 {
        2u8
    } else if i == 10 {
        5u8
    } else if i == 11 {
        6u8
    } else if i == 12 {
        4u8
    } else if i == 13 {
        8u8
    } else {
        0u8
    }
}

impl Default for Song {
    /// An empty song: no events, default tempo and instruments, loop over
    /// the first 1600 ticks.
    fn default() -> (s: Self)
        ensures
            s.tempo_ms == 125,
            s.repeat_start == 0,
            s.repeat_end == 1600,
            s.channels@.len() == 16,
            forall|i: int|
                0 <= i < 16 ==> {
                    let ch = #[trigger] s.channels@[i];
                    &&& ch.instrument == default_instrument(i)
                    &&& ch.finetune == 1000
                    &&& !ch.pizzicato
                    &&& ch.events@.len() == 0
                },
            song_wf(s),
    {
        let mut channels: Vec<Channel> = Vec::new();
        for i in 0..16usize
            invariant
                channels@.len() == i,
                forall|k: int|
                    0 <= k < i ==> {
                        let ch = #[trigger] channels@[k];
                        &&& ch.instrument == default_instrument(k)
                        &&& ch.finetune == 1000
                        &&& !ch.pizzicato
                        &&& ch.events@.len() == 0
                    },
        {
            let instrument: u8 = if i < 8 {
                (11 * i) as u8
            } else if i == 9 {
                2
            } else if i == 10 {
                5
            } else if i == 11 {
                6
            } else if i == 12 {
                4
            } else if i == 13 {
                8
            } else {
                0
            };
            channels.push(
                Channel { instrument, finetune: 1000, pizzicato: false, events: Vec::new() },
            );
        }
        Song { tempo_ms: 125, repeat_start: 0, repeat_end: 1600, channels }
    }
}

impl Default for Player {
    /// A player with an empty song, silent carriers, a zeroed soundbank and
    /// a 44.1 kHz output rate.
    fn default() -> (p: Self)
        ensures
            p.wf(),
            p.position == 0,
            p.last_position == 0,
            p.sample_rate == 44100,
            p.volume_ramp == 176,
            p.song.tempo_ms == 125,
            p.song.repeat_start == 0,
            p.song.repeat_end == 1600,
            forall|i: int|
                0 <= i < 8 ==> #[trigger] p.melodies@[i] == (Melody {
                    pitch: PROPERTY_UNUSED,
                    volume: 200u8,
                    pan: 6u8,
                    index: 0usize,
                    ticks: 0u32,
                    alt: 0u8,
                    muted: false,
                }),
            forall|i: int|
                0 <= i < 8 ==> #[trigger] p.percussions@[i] == (Percussion {
                    pitch: PROPERTY_UNUSED,
                    volume: 200u8,
                    pan: 6u8,
                    index: 0usize,
                    muted: false,
                }),
            forall|k: int| 0 <= k < 25600 ==> p.melody_wave_data@[k] == 0i8,
            forall|i: int| 0 <= i < 42 ==> (#[trigger] p.percussion_wave_data@[i])@.len() == 0,
            forall|i: int| 0 <= i < 64 ==> (#[trigger] p.melody_waves@[i])@.len() == 0,
            forall|i: int| 0 <= i < 8 ==> (#[trigger] p.percussion_waves@[i])@.len() == 0,
    {
        let mut melodies: Vec<Melody> = Vec::new();
        let mut percussions: Vec<Percussion> = Vec::new();
        for i in 0..8usize
            invariant
                melodies@.len() == i,
                percussions@.len() == i,
                forall|k: int|
                    0 <= k < i ==> #[trigger] melodies@[k] == (Melody {
                        pitch: PROPERTY_UNUSED,
                        volume: 200u8,
                        pan: 6u8,
                        index: 0usize,
                        ticks: 0u32,
                        alt: 0u8,
                        muted: false,
                    }),
                forall|k: int|
                    0 <= k < i ==> #[trigger] percussions@[k] == (Percussion {
                        pitch: PROPERTY_UNUSED,
                        volume: 200u8,
                        pan: 6u8,
                        index: 0usize,
                        muted: false,
                    }),
        {
            melodies.push(
                Melody {
                    pitch: PROPERTY_UNUSED,
                    volume: 200,
                    pan: 6,
                    index: 0,
                    ticks: 0,
                    alt: 0,
                    muted: false,
                },
            );
            percussions.push(
                Percussion { pitch: PROPERTY_UNUSED, volume: 200, pan: 6, index: 0, muted: false },
            );
        }
        let mut melody_wave_data: Vec<i8> = Vec::new();
        while melody_wave_data.len() < 25600
            invariant
                melody_wave_data@.len() <= 25600,
                forall|k: int| 0 <= k < melody_wave_data@.len() ==> melody_wave_data@[k] == 0i8,
            decreases 25600 - melody_wave_data@.len(),
        {
            melody_wave_data.push(0);
        }
        let mut percussion_wave_data: Vec<Vec<i8>> = Vec::new();
        for i in 0..42usize
            invariant
                percussion_wave_data@.len() == i,
                forall|k: int|
                    0 <= k < i ==> (#[trigger] percussion_wave_data@[k])@.len() == 0,
        {
            percussion_wave_data.push(Vec::new());
        }
        let mut melody_waves: Vec<Vec<i8>> = Vec::new();
        for i in 0..64usize
            invariant
                melody_waves@.len() == i,
                forall|k: int| 0 <= k < i ==> (#[trigger] melody_waves@[k])@.len() == 0,
        {
            melody_waves.push(Vec::new());
        }
        let mut percussion_waves: Vec<Vec<i8>> = Vec::new();
        for i in 0..8usize
            invariant
                percussion_waves@.len() == i,
                forall|k: int| 0 <= k < i ==> (#[trigger] percussion_waves@[k])@.len() == 0,
        {
            percussion_waves.push(Vec::new());
        }
        Player {
            song: Song::default(),
            position: 0,
            last_position: 0,
            volume_ramp: 44100 / 250,
            sample_rate: 44100,
            melodies,
            percussions,
            melody_wave_data,
            percussion_wave_data,
            melody_waves,
            percussion_waves,
        }
    }
}

impl Player {
    /// Set the output sample rate; a volume or pan ramp takes a 250th of a
    /// second of samples.
    pub fn set_sample_rate(&mut self, sample_rate: u16)
        ensures
            *final(self) == (Player {
                sample_rate,
                volume_ramp: (sample_rate / 250) as u16,
                ..*old(self)
            }),
    {
        self.sample_rate = sample_rate;
        self.volume_ramp = sample_rate / 250;
    }

    /// Point every channel at the first of its events that is not past
    /// `position`, and move the playhead there.
    pub fn seek(&mut self, position: u32)
        requires
            old(self).melodies@.len() == 8,
            old(self).percussions@.len() == 8,
            old(self).song.channels@.len() == 16,
        ensures
            final(self).position == position,
            final(self).last_position == position,
            final(self).melodies@.len() == 8,
            final(self).percussions@.len() == 8,
            forall|i: int|
                0 <= i < 8 ==> #[trigger] final(self).melodies@[i] == (Melody {
                    index: seek_index(old(self).song.channels@[i].events@, position) as usize,
                    ..old(self).melodies@[i]
                }),
            forall|i: int|
                0 <= i < 8 ==> #[trigger] final(self).percussions@[i] == (Percussion {
                    index: seek_index(old(self).song.channels@[8 + i].events@, position) as usize,
                    ..old(self).percussions@[i]
                }),
            final(self).song == old(self).song,
            final(self).sample_rate == old(self).sample_rate,
            final(self).volume_ramp == old(self).volume_ramp,
            final(self).melody_wave_data == old(self).melody_wave_data,
            final(self).percussion_wave_data == old(self).percussion_wave_data,
            final(self).melody_waves == old(self).melody_waves,
            final(self).percussion_waves == old(self).percussion_waves,
    {
        self.last_position = position;
        self.position = position;
        for i in 0..8usize
            invariant
                self.melodies@.len() == 8,
                self.percussions@.len() == 8,
                self.song.channels@.len() == 16,
                self.song == old(self).song,
                self.position == position,
                self.last_position == position,
                self.sample_rate == old(self).sample_rate,
                self.volume_ramp == old(self).volume_ramp,
                self.melody_wave_data == old(self).melody_wave_data,
                self.percussion_wave_data == old(self).percussion_wave_data,
                self.melody_waves == old(self).melody_waves,
                self.percussion_waves == old(self).percussion_waves,
                forall|k: int|
                    0 <= k < i ==> #[trigger] self.melodies@[k] == (Melody {
                        index: seek_index(old(self).song.channels@[k].events@, position) as usize,
                        ..old(self).melodies@[k]
                    }),
                forall|k: int| i <= k < 8 ==> self.melodies@[k] == old(self).melodies@[k],
                forall|k: int|
                    0 <= k < i ==> #[trigger] self.percussions@[k] == (Percussion {
                        index: seek_index(
                            old(self).song.channels@[8 + k].events@,
                            position,
                        ) as usize,
                        ..old(self).percussions@[k]
                    }),
                forall|k: int| i <= k < 8 ==> self.percussions@[k] == old(self).percussions@[k],
        {
            let idx = seek_channel(&self.song.channels[i].events, position);
            let m = self.melodies[i];
            self.melodies.set(i, Melody { index: idx, ..m });
            let idx_p = seek_channel(&self.song.channels[8 + i].events, position);
            let p = self.percussions[i];
            self.percussions.set(i, Percussion { index: idx_p, ..p });
        }
    }
}

/// Index of the first event of `events` with position at or after `pos`; the
/// last index when none is there, 0 when there are no events.
pub fn seek_channel(events: &Vec<Event>, pos: u32) -> (idx: usize)
    ensures
        idx == seek_index(events@, pos),
        idx <= events@.len(),
        events@.len() > 0 ==> idx < events@.len(),
{
    proof {
        lemma_seek_from_bounds(events@, pos, 0);
    }
    let n = events.len();
    for j in 0..n
        invariant
            n == events@.len(),
            seek_index(events@, pos) == seek_from(events@, pos, j as int),
    {
        if pos <= events[j].position {
            return j;
        }
    }
    if n == 0 {
        0
    } else {
        n - 1
    }
}

/// The wavetable of the voice pair of octave group `g` on a melody channel:
/// the instrument's 256-sample waveform subsampled to the group's period,
/// retiled to a longer one-shot buffer on a pizzicato channel.
pub open spec fn melody_wave(bank: Seq<i8>, inst: u8, pizzicato: bool, g: int) -> Seq<i8> {
    let period = spec_size_table(g) as int;
    let size = if pizzicato {
        period * (4 + g * 4)
    } else {
        period
    };
    Seq::new(size as nat, |k: int| bank[inst * 256 + (k * (256int / period)) % 256])
}

/// A successfully parsed song is well formed: 16 channels, instruments
/// coerced into range, events normalized.
pub proof fn lemma_parsed_song_wf(s: Song, d: Seq<u8>)
    requires
        song_ok(d),
        song_matches(s, d),
    ensures
        song_wf(s),
{
    assert forall|i: int| 0 <= i < 8 implies (#[trigger] s.channels@[i]).instrument < 100 by {
        assert(channel_matches(s.channels@[i], d, i));
    }
    assert forall|i: int| 8 <= i < 16 implies (#[trigger] s.channels@[i]).instrument < 42 by {
        assert(channel_matches(s.channels@[i], d, i));
    }
    assert forall|i: int, j: int|
        0 <= i < 16 && 0 <= j < s.channels@[i].events@.len() implies event_wf(
        #[trigger] s.channels@[i].events@[j],
    ) by {
        assert(channel_matches(s.channels@[i], d, i));
        assert(s.channels@[i].events@[j] == chan_events(d, i)[j]);
    }
}

impl Player {
    /// Parse a soundbank from bytes: the 100 melody wavetables, then the 42
    /// percussion records. On success the stored wave data holds exactly
    /// what the bytes describe; on failure the player is left as it was.
    /// Voices keep their wavetables until the next song load.
    pub fn read_soundbank(&mut self, bank_data: &[u8]) -> (r: Result<(), OrgError>)
        requires
            old(self).wf(),
        ensures
            r is Ok <==> soundbank_ok(bank_data@),
            soundbank_ok(bank_data@) ==> {
                &&& final(self).melody_wave_data@ == melody_bank(bank_data@)
                &&& final(self).percussion_wave_data@.len() == 42
                &&& forall|i: int|
                    0 <= i < 42 ==> (#[trigger] final(self).percussion_wave_data@[i])@
                        == perc_slot(bank_data@, i)
                &&& *final(self) == (Player {
                    melody_wave_data: final(self).melody_wave_data,
                    percussion_wave_data: final(self).percussion_wave_data,
                    ..*old(self)
                })
            },
            !soundbank_ok(bank_data@) ==> *final(self) == *old(self),
            final(self).wf(),
            r is Err ==> r matches Err(OrgError::Malformed),
    {
        if bank_data.len() < 25600 + 42 * 4 {
            return Err(OrgError::Malformed);
        }
        proof {
            assert(bank_data@.len() <= usize::MAX);
        }
        let head = &bank_data[0..25600];
        let melody = cast_bytes_signed(head);
        proof {
            assert forall|k: int| 0 <= k < 25600 implies melody@[k] == as_signed(
                bank_data@[k],
            ) by {
                assert(melody@[k] == as_signed(head@[k]));
            }
            assert(melody@ =~= melody_bank(bank_data@));
        }
        let read = ReadCursor(bank_data);
        let mut percs: Vec<Vec<i8>> = Vec::new();
        let mut off: usize = 25600;
        for i in 0..42usize
            invariant
                *self == *old(self),
                old(self).wf(),
                read.0@ == bank_data@,
                bank_data@.len() >= 25768,
                bank_data@.len() <= usize::MAX,
                off == perc_off(bank_data@, i as int),
                off <= bank_data@.len(),
                percs@.len() == i,
                forall|k: int| 0 <= k < i ==> (#[trigger] percs@[k])@ == perc_slot(bank_data@, k),
        {
            if bank_data.len() - off < 4 {
                proof {
                    assert(perc_len(bank_data@, i as int) >= 0);
                    lemma_perc_off_mono(bank_data@, i as int + 1, 42);
                }
                return Err(OrgError::Malformed);
            }
            let len32 = read.u32_le_at(off);
            let len = len32 as usize;
            if len > bank_data.len() - (off + 4) {
                proof {
                    lemma_perc_off_mono(bank_data@, i as int + 1, 42);
                }
                return Err(OrgError::Malformed);
            }
            let rec: Vec<i8> = if len > 0 {
                let tail = &bank_data[off + 4..off + 4 + len];
                let converted = cast_bytes_signed(tail);
                proof {
                    assert forall|k: int| 0 <= k < len implies converted@[k] == as_signed(
                        bank_data@[off + 4 + k],
                    ) by {
                        assert(converted@[k] == as_signed(tail@[k]));
                    }
                }
                converted
            } else {
                Vec::new()
            };
            proof {
                assert(rec@ =~= perc_slot(bank_data@, i as int));
            }
            percs.push(rec);
            off = off + 4 + len;
        }
        self.melody_wave_data = melody;
        self.percussion_wave_data = percs;
        Ok(())
    }

    /// Build the wavetable of every voice from the stored soundbank and the
    /// loaded song's instrument choices.
    fn load_instruments(&mut self)
        requires
            old(self).wf(),
        ensures
            final(self).melody_waves@.len() == 64,
            forall|i: int, g: int|
                0 <= i < 8 && 0 <= g < 8 ==> (#[trigger] final(self).melody_waves@[i * 8 + g])@
                    == melody_wave(
                    old(self).melody_wave_data@,
                    old(self).song.channels@[i].instrument,
                    old(self).song.channels@[i].pizzicato,
                    g,
                ),
            final(self).percussion_waves@.len() == 8,
            forall|i: int|
                0 <= i < 8 ==> (#[trigger] final(self).percussion_waves@[i])@ == perc_wave(
                    old(self).percussion_wave_data@[old(self).song.channels@[8
                        + i].instrument as int]@,
                ),
            *final(self) == (Player {
                melody_waves: final(self).melody_waves,
                percussion_waves: final(self).percussion_waves,
                ..*old(self)
            }),
            final(self).wf(),
    {
        let mut waves: Vec<Vec<i8>> = Vec::new();
        for i in 0..8usize
            invariant
                *self == *old(self),
                old(self).wf(),
                waves@.len() == 8 * i,
                forall|a: int, g: int|
                    0 <= a < i && 0 <= g < 8 ==> (#[trigger] waves@[a * 8 + g])@ == melody_wave(
                        old(self).melody_wave_data@,
                        old(self).song.channels@[a].instrument,
                        old(self).song.channels@[a].pizzicato,
                        g,
                    ),
        {
            let inst = self.song.channels[i].instrument as usize;
            let piz = self.song.channels[i].pizzicato;
            for g in 0..8usize
                invariant
                    *self == *old(self),
                    old(self).wf(),
                    inst == old(self).song.channels@[i as int].instrument as int,
                    piz == old(self).song.channels@[i as int].pizzicato,
                    inst < 100,
                    0 <= i < 8,
                    waves@.len() == 8 * i + g,
                    forall|a: int, h: int|
                        0 <= a < 8 && 0 <= h < 8 && a * 8 + h < 8 * i + g ==> (#[trigger] waves@[a
                            * 8 + h])@ == melody_wave(
                            old(self).melody_wave_data@,
                            old(self).song.channels@[a].instrument,
                            old(self).song.channels@[a].pizzicato,
                            h,
                        ),
            {
                let period = size_table(g) as usize;
                proof {
                    assert(period == 256 || period == 128 || period == 64 || period == 32
                        || period == 16 || period == 8);
                }
                let size = if piz {
                    period * (4 + g * 4)
                } else {
                    period
                };
                let stride = 256 / period;
                proof {
                    if period == 256 {
                        assert(stride == 1);
                    } else if period == 128 {
                        assert(stride == 2);
                    } else if period == 64 {
                        assert(stride == 4);
                    } else if period == 32 {
                        assert(stride == 8);
                    } else if period == 16 {
                        assert(stride == 16);
                    } else {
                        assert(stride == 32);
                    }
                    assert(size <= 8192);
                }
                let mut w: Vec<i8> = Vec::new();
                for k in 0..size
                    invariant
                        *self == *old(self),
                        old(self).wf(),
                        inst < 100,
                        period == spec_size_table(g as int),
                        stride == 256int / (period as int),
                        stride == 1 || stride == 2 || stride == 4 || stride == 8 || stride == 16
                            || stride == 32,
                        size <= 8192,
                        size == (if piz {
                            period * (4 + g as int * 4)
                        } else {
                            period as int
                        }),
                        w@.len() == k,
                        forall|m: int|
                            0 <= m < k ==> #[trigger] w@[m] == old(self).melody_wave_data@[inst
                                * 256 + (m * (256int / (period as int))) % 256],
                {
                    let idx = inst * 256 + (k * stride) % 256;
                    w.push(self.melody_wave_data[idx]);
                }
                proof {
                    assert(w@ =~= melody_wave(
                        old(self).melody_wave_data@,
                        old(self).song.channels@[i as int].instrument,
                        old(self).song.channels@[i as int].pizzicato,
                        g as int,
                    ));
                }
                waves.push(w);
            }
        }
        let mut pwaves: Vec<Vec<i8>> = Vec::new();
        for i in 0..8usize
            invariant
                *self == *old(self),
                old(self).wf(),
                pwaves@.len() == i,
                forall|k: int|
                    0 <= k < i ==> (#[trigger] pwaves@[k])@ == perc_wave(
                        old(self).percussion_wave_data@[old(self).song.channels@[8
                            + k].instrument as int]@,
                    ),
        {
            let inst = self.song.channels[8 + i].instrument as usize;
            let raw = &self.percussion_wave_data[inst];
            let n = raw.len();
            let mut w: Vec<i8> = Vec::new();
            for k in 0..n
                invariant
                    n == raw@.len(),
                    w@.len() == k,
                    forall|m: int| 0 <= m < k ==> #[trigger] w@[m] == flip_signed(raw@[m]),
            {
                w.push(flip_sample(raw[k]));
            }
            proof {
                assert(w@ =~= perc_wave(raw@));
            }
            pwaves.push(w);
        }
        self.melody_waves = waves;
        self.percussion_waves = pwaves;
    }

    /// Load a song from bytes: parse it, rewind to tick 0, and rebuild every
    /// voice wavetable for the song's instruments. On failure the player is
    /// left as it was.
    pub fn read_song(&mut self, song_data: &[u8]) -> (r: Result<(), OrgError>)
        requires
            old(self).wf(),
        ensures
            r is Ok <==> song_ok(song_data@),
            !song_ok(song_data@) ==> *final(self) == *old(self),
            song_ok(song_data@) ==> {
                &&& song_matches(final(self).song, song_data@)
                &&& final(self).position == 0
                &&& final(self).last_position == 0
                &&& forall|i: int|
                    0 <= i < 8 ==> #[trigger] final(self).melodies@[i] == (Melody {
                        index: seek_index(chan_events(song_data@, i), 0) as usize,
                        ..old(self).melodies@[i]
                    })
                &&& forall|i: int|
                    0 <= i < 8 ==> #[trigger] final(self).percussions@[i] == (Percussion {
                        index: seek_index(chan_events(song_data@, 8 + i), 0) as usize,
                        ..old(self).percussions@[i]
                    })
                &&& forall|i: int, g: int|
                    0 <= i < 8 && 0 <= g < 8 ==> (#[trigger] final(self).melody_waves@[i * 8
                        + g])@ == melody_wave(
                        old(self).melody_wave_data@,
                        chan_instrument(song_data@, i),
                        chan_pizzicato(song_data@, i),
                        g,
                    )
                &&& forall|i: int|
                    0 <= i < 8 ==> (#[trigger] final(self).percussion_waves@[i])@ == perc_wave(
                        old(self).percussion_wave_data@[chan_instrument(song_data@, 8
                            + i) as int]@,
                    )
                &&& final(self).sample_rate == old(self).sample_rate
                &&& final(self).volume_ramp == old(self).volume_ramp
                &&& final(self).melody_wave_data == old(self).melody_wave_data
                &&& final(self).percussion_wave_data == old(self).percussion_wave_data
            },
            final(self).wf(),
            r is Err ==> r matches Err(OrgError::Malformed),
    {
        let ghost prior: Player = *self;
        match self.song.read(song_data) {
            Ok(()) => {}
            Err(e) => {
                proof {
                    assert(*self == prior);
                }
                return Err(e);
            }
        }
        proof {
            lemma_parsed_song_wf(self.song, song_data@);
        }
        self.seek(0);
        proof {
            assert forall|i: int| 0 <= i < 8 implies melody_wf(
                #[trigger] self.melodies@[i],
                self.song.channels@[i],
            ) by {
                lemma_seek_from_bounds(self.song.channels@[i].events@, 0u32, 0);
            }
            assert forall|i: int| 0 <= i < 8 implies perc_wf(
                #[trigger] self.percussions@[i],
                self.song.channels@[8 + i],
            ) by {
                lemma_seek_from_bounds(self.song.channels@[8 + i].events@, 0u32, 0);
            }
        }
        self.load_instruments();
        Ok(())
    }
}

} // verus!

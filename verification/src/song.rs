//! The Organya song container: 16 event channels, tempo and loop points,
//! parsed from bytes.

use vstd::prelude::*;

use crate::OrgError;
use crate::PROPERTY_UNUSED;
use crate::read_cursor::{ReadCursor, u16_le_of, u32_le_of};

verus! {

/// One note event of a channel.
#[derive(Clone, Copy, PartialEq, Eq, Structural, Debug)]
pub struct Event {
    /// Tick index at which the event fires.
    pub position: u32,
    /// New pitch (0..96), or `PROPERTY_UNUSED` for "no change".
    pub pitch: u8,
    /// Note duration in ticks, at least 1 after loading.
    pub length: u8,
    /// New volume (0..128), or `PROPERTY_UNUSED` for "no change".
    pub volume: u8,
    /// New pan (0..13), or `PROPERTY_UNUSED` for "no change".
    pub pan: u8,
}

/// One of the 16 channels of a song.
pub struct Channel {
    /// Instrument index: wavetable for melody channels, sample for percussion.
    pub instrument: u8,
    /// Additive frequency offset in Hz, centered at 1000.
    pub finetune: u16,
    /// One-shot (non-looping) playback style; meaningful for melody channels.
    pub pizzicato: bool,
    /// The channel's events, ordered by position.
    pub events: Vec<Event>,
}

/// A song: tempo, loop points, and 16 channels (0..8 melody, 8..16 percussion).
pub struct Song {
    /// Milliseconds per tick.
    pub tempo_ms: u16,
    /// Tick the playhead jumps back to when it reaches `repeat_end`.
    pub repeat_start: u32,
    /// Tick at which the playhead wraps around to `repeat_start`.
    pub repeat_end: u32,
    /// The 16 channels.
    pub channels: Vec<Channel>,
}

/// The bytes `"Org-"` open a song.
pub open spec fn magic_ok(d: Seq<u8>) -> bool {
    d[0] == 0x4Fu8 && d[1] == 0x72u8 && d[2] == 0x67u8 && d[3] == 0x2Du8
}

/// Whether `b` is an ASCII decimal digit.
pub open spec fn is_ascii_digit(b: u8) -> bool {
    0x30 <= b <= 0x39
}

/// The two-digit decimal version number after the magic.
pub open spec fn version_of(d: Seq<u8>) -> int {
    (d[4] - 0x30) * 10 + (d[5] - 0x30)
}

/// The version field holds two ASCII digits forming 1, 2 or 3.
pub open spec fn version_ok(d: Seq<u8>) -> bool {
    is_ascii_digit(d[4]) && is_ascii_digit(d[5]) && 1 <= version_of(d) <= 3
}

/// Event count of channel `i`, from the channel's header record.
pub open spec fn chan_count(d: Seq<u8>, i: int) -> int {
    u16_le_of(d, 22 + 6 * i)
}

/// Byte offset of channel `i`'s event table: the fixed 114-byte header,
/// then 8 bytes per event of every earlier channel.
pub open spec fn events_off(d: Seq<u8>, i: int) -> int
    decreases i,
{
    if i <= 0 {
        114
    } else {
        events_off(d, i - 1) + 8 * chan_count(d, i - 1)
    }
}

/// `events_off` never decreases from channel to channel.
pub proof fn lemma_events_off_mono(d: Seq<u8>, i: int, j: int)
    requires
        0 <= i <= j,
    ensures
        events_off(d, i) <= events_off(d, j),
    decreases j - i,
{
    if i < j {
        lemma_events_off_mono(d, i, j - 1);
        assert(u16_le_of(d, 22 + 6 * (j - 1)) >= 0);
    }
}

/// The whole byte block is structurally valid: long enough for the header,
/// right magic and version, and long enough for every event table.
pub open spec fn song_ok(d: Seq<u8>) -> bool {
    &&& d.len() >= 114
    &&& magic_ok(d)
    &&& version_ok(d)
    &&& d.len() >= events_off(d, 16)
}

/// Event `j` of channel `i` as stored: positions first, then one column
/// each of pitch, length, volume and pan bytes.
pub open spec fn raw_event(d: Seq<u8>, base: int, n: int, j: int) -> Event {
    Event {
        position: u32_le_of(d, base + 4 * j) as u32,
        pitch: d[base + 4 * n + j],
        length: d[base + 5 * n + j],
        volume: d[base + 6 * n + j],
        pan: d[base + 7 * n + j],
    }
}

/// Load-time normalization: a pitch out of 0..96 means "no change", a zero
/// length becomes 1, and an out-of-range pan other than "no change" is
/// centered.
pub open spec fn normalized_event(e: Event) -> Event {
    Event {
        position: e.position,
        pitch: if e.pitch >= 96 { PROPERTY_UNUSED } else { e.pitch },
        length: if e.length == 0 { 1u8 } else { e.length },
        volume: e.volume,
        pan: if e.pan > 12 && e.pan != PROPERTY_UNUSED { 6u8 } else { e.pan },
    }
}

/// The events of channel `i`, normalized.
pub open spec fn chan_events(d: Seq<u8>, i: int) -> Seq<Event> {
    Seq::new(
        chan_count(d, i) as nat,
        |j: int| normalized_event(raw_event(d, events_off(d, i), chan_count(d, i), j)),
    )
}

/// Finetune of channel `i`, from the channel's header record.
pub open spec fn chan_finetune(d: Seq<u8>, i: int) -> int {
    u16_le_of(d, 18 + 6 * i)
}

/// Instrument of channel `i`: out-of-range indices are coerced to 0.
pub open spec fn chan_instrument(d: Seq<u8>, i: int) -> u8 {
    let raw = d[20 + 6 * i];
    if (i < 8 && raw >= 100) || (i >= 8 && raw >= 42) {
        0u8
    } else {
        raw
    }
}

/// Pizzicato flag of channel `i`; versions up to 1 have none.
pub open spec fn chan_pizzicato(d: Seq<u8>, i: int) -> bool {
    version_of(d) > 1 && d[21 + 6 * i] == 1
}

/// Channel `c` holds exactly what the bytes `d` describe for channel `i`.
pub open spec fn channel_matches(c: Channel, d: Seq<u8>, i: int) -> bool {
    &&& c.finetune == chan_finetune(d, i)
    &&& c.instrument == chan_instrument(d, i)
    &&& c.pizzicato == chan_pizzicato(d, i)
    &&& c.events@ == chan_events(d, i)
}

/// Song `s` holds exactly what the bytes `d` describe.
pub open spec fn song_matches(s: Song, d: Seq<u8>) -> bool {
    &&& s.tempo_ms == u16_le_of(d, 6)
    &&& s.repeat_start == u32_le_of(d, 10)
    &&& s.repeat_end == u32_le_of(d, 14)
    &&& s.channels@.len() == 16
    &&& forall|i: int| 0 <= i < 16 ==> channel_matches(#[trigger] s.channels@[i], d, i)
}

impl Song {
    /// Parse a song from bytes. On success the song holds exactly what the
    /// bytes describe; on failure it is left as it was.
    pub fn read(&mut self, data: &[u8]) -> (r: Result<(), OrgError>)
        ensures
            r is Ok <==> song_ok(data@),
            song_ok(data@) ==> song_matches(*final(self), data@),
            !song_ok(data@) ==> *final(self) == *old(self),
            r is Err ==> r matches Err(OrgError::Malformed),
    {
        if data.len() < 114 {
            return Err(OrgError::Malformed);
        }
        proof {
            assert(data@.len() <= usize::MAX);
        }
        let read = ReadCursor(data);
        if !(read.u8_at(0) == 0x4F && read.u8_at(1) == 0x72 && read.u8_at(2) == 0x67
            && read.u8_at(3) == 0x2D) {
            return Err(OrgError::Malformed);
        }
        let d4 = read.u8_at(4);
        let d5 = read.u8_at(5);
        if !(0x30 <= d4 && d4 <= 0x39 && 0x30 <= d5 && d5 <= 0x39) {
            return Err(OrgError::Malformed);
        }
        let version = (d4 - 0x30) * 10 + (d5 - 0x30);
        if version < 1 || version > 3 {
            return Err(OrgError::Malformed);
        }
        let tempo_ms = read.u16_le_at(6);
        let repeat_start = read.u32_le_at(10);
        let repeat_end = read.u32_le_at(14);
        let mut channels: Vec<Channel> = Vec::new();
        let mut off: usize = 114;
        for i in 0..16usize
            invariant
                read.0@ == data@,
                data@.len() >= 114,
                data@.len() <= usize::MAX,
                magic_ok(data@),
                version_ok(data@),
                version == version_of(data@),
                off == events_off(data@, i as int),
                off <= data@.len(),
                channels@.len() == i,
                forall|k: int| 0 <= k < i ==> channel_matches(#[trigger] channels@[k], data@, k),
        {
            let finetune = read.u16_le_at(18 + 6 * i);
            let instrument_raw = read.u8_at(20 + 6 * i);
            let pizzicato_raw = read.u8_at(21 + 6 * i);
            let count = read.u16_le_at(22 + 6 * i);
            let n = count as usize;
            if 8 * n > data.len() - off {
                proof {
                    lemma_events_off_mono(data@, i as int + 1, 16);
                }
                return Err(OrgError::Malformed);
            }
            let instrument = if (i < 8 && instrument_raw >= 100) || (i >= 8 && instrument_raw
                >= 42) {
                0u8
            } else {
                instrument_raw
            };
            let pizzicato = version > 1 && pizzicato_raw == 1;
            let mut events: Vec<Event> = Vec::new();
            for j in 0..n
                invariant
                    read.0@ == data@,
                    data@.len() <= usize::MAX,
                    n == chan_count(data@, i as int),
                    off == events_off(data@, i as int),
                    off + 8 * n <= data@.len(),
                    events@.len() == j,
                    forall|k: int| 0 <= k < j ==> #[trigger] events@[k] == chan_events(
                        data@,
                        i as int,
                    )[k],
            {
                let position = read.u32_le_at(off + 4 * j);
                let mut pitch = read.u8_at(off + 4 * n + j);
                let mut length = read.u8_at(off + 5 * n + j);
                let volume = read.u8_at(off + 6 * n + j);
                let mut pan = read.u8_at(off + 7 * n + j);
                if pitch >= 96 {
                    pitch = PROPERTY_UNUSED;
                }
                if length == 0 {
                    length = 1;
                }
                if pan > 12 && pan != PROPERTY_UNUSED {
                    pan = 6;
                }
                events.push(Event { position, pitch, length, volume, pan });
            }
            proof {
                assert(events@ =~= chan_events(data@, i as int));
            }
            channels.push(Channel { instrument, finetune, pizzicato, events });
            off = off + 8 * n;
        }
        proof {
            lemma_events_off_mono(data@, 16, 16);
        }
        self.tempo_ms = tempo_ms;
        self.repeat_start = repeat_start;
        self.repeat_end = repeat_end;
        self.channels = channels;
        Ok(())
    }
}

} // verus!

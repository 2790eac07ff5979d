//! Laws of the sequencer, stated and proved over the transition functions
//! that the executable code is verified against.

use vstd::prelude::*;

use crate::PROPERTY_UNUSED;
use crate::player::{Melody, Player, VoiceCmd, seek_from, seek_index};
use crate::sequencer::{
    melodies_after_tick, melody_fires, percussions_after_tick, position_after_tick,
    spec_melody_event, spec_melody_tick, tick_wraps,
};
use crate::song::{Channel, Event};
use crate::tables::{group_of, pan_db_of, volume_db_of};

verus! {

proof fn lemma_seek_from_finds_first(events: Seq<Event>, pos: u32, j: int, w: int)
    requires
        0 <= j <= w < events.len(),
        events[w].position >= pos,
    ensures
        j <= seek_from(events, pos, j) <= w,
        events[seek_from(events, pos, j)].position >= pos,
        forall|k: int|
            j <= k < seek_from(events, pos, j) ==> (#[trigger] events[k]).position < pos,
    decreases w - j,
{
    if events[j].position < pos {
        lemma_seek_from_finds_first(events, pos, j + 1, w);
    }
}

/// A seek selects the first event at or after `pos`: whenever some event
/// `w` lies at or after `pos`, the selected index is the earliest such
/// event, and every event before it lies strictly before `pos`. With the
/// loop wrap this is what lets a cycle replay from the repeat start.
pub proof fn lemma_seek_finds_first(events: Seq<Event>, pos: u32, w: int)
    requires
        0 <= w < events.len(),
        events[w].position >= pos,
    ensures
        0 <= seek_index(events, pos) <= w,
        events[seek_index(events, pos)].position >= pos,
        forall|k: int|
            0 <= k < seek_index(events, pos) ==> (#[trigger] events[k]).position < pos,
{
    lemma_seek_from_finds_first(events, pos, 0, w);
}

/// An event whose pitch is the sentinel leaves the active voice untouched:
/// the carrier keeps its pitch, pair half and remaining note length and
/// only takes the event's volume and pan fields and moves to the next
/// event; the commands are exactly the volume and pan ramps those fields
/// ask for (each only when not sentinel, and only while a note is active)
/// — never a play, a stop or a retuning.
pub proof fn lemma_sentinel_pitch_keeps_voice(m: Melody, ch: Channel, ci: int)
    requires
        m.index < ch.events@.len(),
        ch.events@[m.index as int].pitch == PROPERTY_UNUSED,
    ensures
        spec_melody_event(m, ch, ci).0 == (Melody {
            volume: if ch.events@[m.index as int].volume != PROPERTY_UNUSED {
                ch.events@[m.index as int].volume
            } else {
                m.volume
            },
            pan: if ch.events@[m.index as int].pan != PROPERTY_UNUSED {
                ch.events@[m.index as int].pan
            } else {
                m.pan
            },
            index: (m.index + 1) as usize,
            ..m
        }),
        spec_melody_event(m, ch, ci).1 == (if ch.events@[m.index as int].volume
            != PROPERTY_UNUSED && m.pitch != PROPERTY_UNUSED {
            seq![
                (VoiceCmd::MelodyVolume {
                    channel: ci as u8,
                    group: group_of(m.pitch) as u8,
                    alt: m.alt,
                    volume_db: volume_db_of(ch.events@[m.index as int].volume) as i16,
                }),
            ]
        } else {
            Seq::<VoiceCmd>::empty()
        }) + (if ch.events@[m.index as int].pan != PROPERTY_UNUSED && m.pitch
            != PROPERTY_UNUSED {
            seq![
                (VoiceCmd::MelodyPan {
                    channel: ci as u8,
                    group: group_of(m.pitch) as u8,
                    alt: m.alt,
                    pan_db: pan_db_of(ch.events@[m.index as int].pan as int) as i16,
                }),
            ]
        } else {
            Seq::<VoiceCmd>::empty()
        }),
        forall|k: int|
            0 <= k < spec_melody_event(m, ch, ci).1.len() ==> !((
            #[trigger] spec_melody_event(m, ch, ci).1[k]) is MelodyPlay) && !(spec_melody_event(
                m,
                ch,
                ci,
            ).1[k] is MelodyStop) && !(spec_melody_event(m, ch, ci).1[k] is MelodyFrequency),
{
    let e = ch.events@[m.index as int];
    let vol_part = if e.volume != PROPERTY_UNUSED && m.pitch != PROPERTY_UNUSED {
        seq![
            (VoiceCmd::MelodyVolume {
                channel: ci as u8,
                group: group_of(m.pitch) as u8,
                alt: m.alt,
                volume_db: volume_db_of(e.volume) as i16,
            }),
        ]
    } else {
        Seq::<VoiceCmd>::empty()
    };
    let pan_part = if e.pan != PROPERTY_UNUSED && m.pitch != PROPERTY_UNUSED {
        seq![
            (VoiceCmd::MelodyPan {
                channel: ci as u8,
                group: group_of(m.pitch) as u8,
                alt: m.alt,
                pan_db: pan_db_of(e.pan as int) as i16,
            }),
        ]
    } else {
        Seq::<VoiceCmd>::empty()
    };
    assert(spec_melody_event(m, ch, ci).1 =~= vol_part + pan_part);
}

/// Over a whole tick that consumes a sentinel-pitch event while the note
/// still has ticks to run: the pitch and pair half stay, the note length
/// takes only the normal expiry decrement, the index moves to the next
/// event, and no play, stop or retuning command is issued.
pub proof fn lemma_sentinel_pitch_tick(m: Melody, ch: Channel, pos: u32, ci: int)
    requires
        melody_fires(m, ch, pos),
        ch.events@[m.index as int].pitch == PROPERTY_UNUSED,
        m.ticks != 0,
    ensures
        spec_melody_tick(m, ch, pos, ci).0.pitch == m.pitch,
        spec_melody_tick(m, ch, pos, ci).0.alt == m.alt,
        spec_melody_tick(m, ch, pos, ci).0.ticks == m.ticks - 1,
        spec_melody_tick(m, ch, pos, ci).0.index == (m.index + 1) as usize,
        forall|k: int|
            0 <= k < spec_melody_tick(m, ch, pos, ci).1.len() ==> !((
            #[trigger] spec_melody_tick(m, ch, pos, ci).1[k]) is MelodyPlay) && !(spec_melody_tick(
                m,
                ch,
                pos,
                ci,
            ).1[k] is MelodyStop) && !(spec_melody_tick(m, ch, pos, ci).1[k] is MelodyFrequency),
{
    lemma_sentinel_pitch_keeps_voice(m, ch, ci);
    assert(spec_melody_tick(m, ch, pos, ci).1 =~= spec_melody_event(m, ch, ci).1);
}

/// A note-on of length 1 releases one tick later: the tick that consumes
/// it leaves the note with no remaining ticks, and the next tick (when no
/// further event fires there) releases the pitch, stopping the voice as
/// its only command.
pub proof fn lemma_note_length_one_releases(m: Melody, ch: Channel, pos: u32, pos2: u32, ci: int)
    requires
        melody_fires(m, ch, pos),
        ch.events@[m.index as int].pitch != PROPERTY_UNUSED,
        ch.events@[m.index as int].length == 1,
        !ch.pizzicato,
        !melody_fires(spec_melody_tick(m, ch, pos, ci).0, ch, pos2),
    ensures
        spec_melody_tick(m, ch, pos, ci).0.pitch == ch.events@[m.index as int].pitch,
        spec_melody_tick(m, ch, pos, ci).0.ticks == 0,
        spec_melody_tick(spec_melody_tick(m, ch, pos, ci).0, ch, pos2, ci).0.pitch
            == PROPERTY_UNUSED,
        spec_melody_tick(spec_melody_tick(m, ch, pos, ci).0, ch, pos2, ci).1 == seq![
            (VoiceCmd::MelodyStop {
                channel: ci as u8,
                group: group_of(ch.events@[m.index as int].pitch) as u8,
                alt: spec_melody_tick(m, ch, pos, ci).0.alt,
            }),
        ],
{
    let m1 = spec_melody_tick(m, ch, pos, ci).0;
    let second = spec_melody_tick(m1, ch, pos2, ci);
    assert(second.1 =~= spec_melody_tick(m1, ch, pos2, ci).1);
}

/// Pan step 6 is acoustically centered: the decibel argument handed to the
/// voice is exactly 0, attenuating neither ear.
pub proof fn lemma_center_pan_is_unity()
    ensures
        pan_db_of(6) == 0,
{
}

/// A song whose repeat end is 0 is degenerate but safe: every tick wraps
/// immediately, landing the playhead on the repeat start.
pub proof fn lemma_degenerate_repeat_wraps(p: Player)
    requires
        p.song.repeat_end == 0,
    ensures
        tick_wraps(p),
        position_after_tick(p) == p.song.repeat_start,
{
}

/// Reaching the repeat end wraps: when the next position would be the
/// repeat end, the tick lands on the repeat start instead, and every
/// channel is re-pointed at its first event at or after the repeat start.
pub proof fn lemma_repeat_end_wraps(p: Player)
    requires
        p.position < u32::MAX,
        p.position + 1 == p.song.repeat_end,
    ensures
        tick_wraps(p),
        position_after_tick(p) == p.song.repeat_start,
        forall|i: int|
            0 <= i < 8 ==> (#[trigger] melodies_after_tick(p)[i]).index == seek_index(
                p.song.channels@[i].events@,
                p.song.repeat_start,
            ) as usize,
        forall|i: int|
            0 <= i < 8 ==> (#[trigger] percussions_after_tick(p)[i]).index == seek_index(
                p.song.channels@[8 + i].events@,
                p.song.repeat_start,
            ) as usize,
{
}

} // verus!

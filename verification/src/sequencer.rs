//! The sequencer: at each song tick every channel consumes its pending
//! event, note lengths expire, and the playhead advances and wraps at the
//! song's repeat end. Each tick yields the voice commands the mixer applies.

use vstd::prelude::*;

use crate::PROPERTY_UNUSED;
use crate::player::{
    Melody, Percussion, Player, VoiceCmd, event_wf, lemma_seek_from_bounds, melody_wf, perc_wf,
    seek_index,
};
use crate::song::{Channel, Song};
use crate::tables::{
    group_of, melody_freq, melody_frequency, pan_db, pan_db_of, perc_freq, perc_frequency,
    volume_db, volume_db_of,
};

verus! {

/// The eight frequency commands of a melody note-on: the voice pair of every
/// octave group is retuned for the new pitch.
pub open spec fn spec_freq_cmds(ci: int, pitch: u8, finetune: u16) -> Seq<VoiceCmd> {
    Seq::new(
        8nat,
        |g: int|
            VoiceCmd::MelodyFrequency {
                channel: ci as u8,
                group: g as u8,
                frequency: melody_freq(g, pitch, finetune) as u16,
            },
    )
}

/// A melody channel consuming the event at its index: on a legato channel a
/// note-on over a held note stops the active half of the voice pair (its
/// silence tail begins) and switches to the other half; a pizzicato
/// retrigger reuses the same half. Then volume and pan changes apply, and
/// the index moves on.
pub open spec fn spec_melody_event(m: Melody, ch: Channel, ci: int) -> (Melody, Seq<VoiceCmd>) {
    let e = ch.events@[m.index as int];
    let legato_switch = m.pitch != PROPERTY_UNUSED && !ch.pizzicato;
    let step1 = if e.pitch != PROPERTY_UNUSED {
        let stop = if legato_switch {
            seq![
                VoiceCmd::MelodyStop {
                    channel: ci as u8,
                    group: group_of(m.pitch) as u8,
                    alt: m.alt,
                },
            ]
        } else {
            Seq::<VoiceCmd>::empty()
        };
        let alt = if legato_switch {
            if m.alt == 0 {
                1u8
            } else {
                0u8
            }
        } else {
            m.alt
        };
        let mn = Melody { pitch: e.pitch, ticks: e.length as u32, alt, ..m };
        (
            mn,
            stop + spec_freq_cmds(ci, e.pitch, ch.finetune) + seq![
                VoiceCmd::MelodyPlay {
                    channel: ci as u8,
                    group: group_of(e.pitch) as u8,
                    alt,
                    looping: !ch.pizzicato,
                },
            ],
        )
    } else {
        (m, Seq::<VoiceCmd>::empty())
    };
    let m1 = step1.0;
    let step2 = if e.volume != PROPERTY_UNUSED {
        (
            Melody { volume: e.volume, ..m1 },
            if m1.pitch != PROPERTY_UNUSED {
                seq![
                    VoiceCmd::MelodyVolume {
                        channel: ci as u8,
                        group: group_of(m1.pitch) as u8,
                        alt: m1.alt,
                        volume_db: volume_db_of(e.volume) as i16,
                    },
                ]
            } else {
                Seq::<VoiceCmd>::empty()
            },
        )
    } else {
        (m1, Seq::<VoiceCmd>::empty())
    };
    let m2 = step2.0;
    let step3 = if e.pan != PROPERTY_UNUSED {
        (
            Melody { pan: e.pan, ..m2 },
            if m2.pitch != PROPERTY_UNUSED {
                seq![
                    VoiceCmd::MelodyPan {
                        channel: ci as u8,
                        group: group_of(m2.pitch) as u8,
                        alt: m2.alt,
                        pan_db: pan_db_of(e.pan as int) as i16,
                    },
                ]
            } else {
                Seq::<VoiceCmd>::empty()
            },
        )
    } else {
        (m2, Seq::<VoiceCmd>::empty())
    };
    let m3 = step3.0;
    (Melody { index: (m3.index + 1) as usize, ..m3 }, step1.1 + step2.1 + step3.1)
}

/// Note-length expiry: when the ticks run out a held legato note is
/// released — its voice is stopped and the silence tail begins; otherwise
/// the count goes down.
pub open spec fn spec_melody_expiry(m: Melody, ch: Channel, ci: int) -> (Melody, Seq<VoiceCmd>) {
    if m.ticks == 0 {
        if m.pitch != PROPERTY_UNUSED && !ch.pizzicato {
            (
                Melody { pitch: PROPERTY_UNUSED, ..m },
                seq![
                    VoiceCmd::MelodyStop {
                        channel: ci as u8,
                        group: group_of(m.pitch) as u8,
                        alt: m.alt,
                    },
                ],
            )
        } else {
            (m, Seq::<VoiceCmd>::empty())
        }
    } else {
        (Melody { ticks: (m.ticks - 1) as u32, ..m }, Seq::<VoiceCmd>::empty())
    }
}

/// Whether the melody channel's next event fires at `pos`.
pub open spec fn melody_fires(m: Melody, ch: Channel, pos: u32) -> bool {
    m.index < ch.events@.len() && !m.muted && ch.events@[m.index as int].position == pos
}

/// One sequencer tick of a melody channel: consume a fired event, then apply
/// note-length expiry.
pub open spec fn spec_melody_tick(m: Melody, ch: Channel, pos: u32, ci: int) -> (
    Melody,
    Seq<VoiceCmd>,
) {
    let fired = if melody_fires(m, ch, pos) {
        spec_melody_event(m, ch, ci)
    } else {
        (m, Seq::<VoiceCmd>::empty())
    };
    let expired = spec_melody_expiry(fired.0, ch, ci);
    (expired.0, fired.1 + expired.1)
}

/// Whether the percussion channel's next event fires at `pos`.
pub open spec fn perc_fires(p: Percussion, ch: Channel, pos: u32) -> bool {
    !p.muted && p.index < ch.events@.len() && ch.events@[p.index as int].position == pos
}

/// One sequencer tick of a percussion channel: a fired event retriggers the
/// voice on a pitch change and applies volume and pan changes.
pub open spec fn spec_perc_tick(p: Percussion, ch: Channel, pos: u32, ci: int) -> (
    Percussion,
    Seq<VoiceCmd>,
) {
    if perc_fires(p, ch, pos) {
        let e = ch.events@[p.index as int];
        let step1 = if e.pitch != PROPERTY_UNUSED {
            (
                Percussion { pitch: e.pitch, ..p },
                seq![
                    VoiceCmd::PercussionStop { channel: ci as u8 },
                    VoiceCmd::PercussionFrequency {
                        channel: ci as u8,
                        frequency: perc_freq(e.pitch) as u16,
                    },
                    VoiceCmd::PercussionPlay { channel: ci as u8 },
                ],
            )
        } else {
            (p, Seq::<VoiceCmd>::empty())
        };
        let p1 = step1.0;
        let step2 = if e.volume != PROPERTY_UNUSED {
            (
                Percussion { volume: e.volume, ..p1 },
                seq![
                    VoiceCmd::PercussionVolume {
                        channel: ci as u8,
                        volume_db: volume_db_of(e.volume) as i16,
                    },
                ],
            )
        } else {
            (p1, Seq::<VoiceCmd>::empty())
        };
        let p2 = step2.0;
        let step3 = if e.pan != PROPERTY_UNUSED {
            (
                Percussion { pan: e.pan, ..p2 },
                seq![
                    VoiceCmd::PercussionPan {
                        channel: ci as u8,
                        pan_db: pan_db_of(e.pan as int) as i16,
                    },
                ],
            )
        } else {
            (p2, Seq::<VoiceCmd>::empty())
        };
        let p3 = step3.0;
        (Percussion { index: (p3.index + 1) as usize, ..p3 }, step1.1 + step2.1 + step3.1)
    } else {
        (p, Seq::<VoiceCmd>::empty())
    }
}

/// The melody commands of one tick: channels 0 up to `i`, concatenated.
pub open spec fn melody_cmds_upto(ms: Seq<Melody>, chs: Seq<Channel>, pos: u32, i: int) -> Seq<
    VoiceCmd,
>
    decreases i,
{
    if i <= 0 {
        Seq::empty()
    } else {
        melody_cmds_upto(ms, chs, pos, i - 1) + spec_melody_tick(
            ms[i - 1],
            chs[i - 1],
            pos,
            i - 1,
        ).1
    }
}

/// The percussion commands of one tick: channels 0 up to `i`, concatenated.
pub open spec fn perc_cmds_upto(ps: Seq<Percussion>, chs: Seq<Channel>, pos: u32, i: int) -> Seq<
    VoiceCmd,
>
    decreases i,
{
    if i <= 0 {
        Seq::empty()
    } else {
        perc_cmds_upto(ps, chs, pos, i - 1) + spec_perc_tick(ps[i - 1], chs[8 + i - 1], pos, i - 1).1
    }
}

/// The melody carriers after their channels tick, before any loop wrap.
pub open spec fn melodies_ticked(ms: Seq<Melody>, chs: Seq<Channel>, pos: u32) -> Seq<Melody> {
    Seq::new(8nat, |i: int| spec_melody_tick(ms[i], chs[i], pos, i).0)
}

/// The percussion carriers after their channels tick.
pub open spec fn percussions_ticked(ps: Seq<Percussion>, chs: Seq<Channel>, pos: u32) -> Seq<
    Percussion,
> {
    Seq::new(8nat, |i: int| spec_perc_tick(ps[i], chs[8 + i], pos, i).0)
}

/// All commands of one sequencer tick: melody channels first, then
/// percussion channels.
pub open spec fn spec_tick_cmds(p: Player) -> Seq<VoiceCmd> {
    melody_cmds_upto(p.melodies@, p.song.channels@, p.position, 8) + perc_cmds_upto(
        p.percussions@,
        p.song.channels@,
        p.position,
        8,
    )
}

/// The playhead one tick later, before any loop wrap (the counter wraps at
/// the 32-bit limit).
pub open spec fn next_pos(p: Player) -> u32 {
    if p.position == u32::MAX {
        0u32
    } else {
        (p.position + 1) as u32
    }
}

/// Whether this tick reaches the song's repeat end and wraps back.
pub open spec fn tick_wraps(p: Player) -> bool {
    next_pos(p) >= p.song.repeat_end
}

/// The melody carriers after one whole tick: ticked, and re-pointed at the
/// repeat start when the tick wraps.
pub open spec fn melodies_after_tick(p: Player) -> Seq<Melody> {
    let ticked = melodies_ticked(p.melodies@, p.song.channels@, p.position);
    if tick_wraps(p) {
        Seq::new(
            8nat,
            |i: int|
                Melody {
                    index: seek_index(p.song.channels@[i].events@, p.song.repeat_start) as usize,
                    ..ticked[i]
                },
        )
    } else {
        ticked
    }
}

/// The percussion carriers after one whole tick.
pub open spec fn percussions_after_tick(p: Player) -> Seq<Percussion> {
    let ticked = percussions_ticked(p.percussions@, p.song.channels@, p.position);
    if tick_wraps(p) {
        Seq::new(
            8nat,
            |i: int|
                Percussion {
                    index: seek_index(
                        p.song.channels@[8 + i].events@,
                        p.song.repeat_start,
                    ) as usize,
                    ..ticked[i]
                },
        )
    } else {
        ticked
    }
}

/// The playhead after one whole tick: advanced, or moved to the repeat
/// start when it reached the repeat end.
pub open spec fn position_after_tick(p: Player) -> u32 {
    if tick_wraps(p) {
        p.song.repeat_start
    } else {
        next_pos(p)
    }
}

/// A melody note-on of event `j` of channel `i` keeps every octave group's
/// frequency inside the 16-bit value a voice takes.
pub open spec fn melody_event_fits(s: Song, i: int, j: int, g: int) -> bool {
    s.channels@[i].events@[j].pitch != PROPERTY_UNUSED ==> melody_freq(
        g,
        s.channels@[i].events@[j].pitch,
        s.channels@[i].finetune,
    ) <= u16::MAX
}

/// A percussion note-on of event `j` of channel `i` keeps the frequency
/// inside the 16-bit value a voice takes.
pub open spec fn perc_event_fits(s: Song, i: int, j: int) -> bool {
    s.channels@[i].events@[j].pitch != PROPERTY_UNUSED ==> perc_freq(
        s.channels@[i].events@[j].pitch,
    ) <= u16::MAX
}

/// Every frequency this song can ask of a voice fits the 16-bit value a
/// voice takes; the sequencer requires this of the songs it plays.
pub open spec fn freqs_fit(s: Song) -> bool {
    &&& forall|i: int, j: int, g: int|
        0 <= i < 8 && 0 <= j < s.channels@[i].events@.len() && 0 <= g < 8
            ==> #[trigger] melody_event_fits(s, i, j, g)
    &&& forall|i: int, j: int|
        8 <= i < 16 && 0 <= j < s.channels@[i].events@.len() ==> #[trigger] perc_event_fits(
            s,
            i,
            j,
        )
}

/// Whether every frequency this song can ask of a voice fits the 16-bit
/// value a voice takes; check this before ticking a freshly loaded song.
pub fn song_freqs_fit(s: &Song) -> (b: bool)
    requires
        s.channels@.len() == 16,
    ensures
        b == freqs_fit(*s),
{
    for i in 0..8usize
        invariant
            s.channels@.len() == 16,
            forall|a: int, j: int, g: int|
                0 <= a < i && 0 <= j < s.channels@[a].events@.len() && 0 <= g < 8
                    ==> #[trigger] melody_event_fits(*s, a, j, g),
    {
        let n = s.channels[i].events.len();
        for j in 0..n
            invariant
                s.channels@.len() == 16,
                0 <= i < 8,
                n == s.channels@[i as int].events@.len(),
                forall|a: int, jj: int, g: int|
                    0 <= a < i && 0 <= jj < s.channels@[a].events@.len() && 0 <= g < 8
                        ==> #[trigger] melody_event_fits(*s, a, jj, g),
                forall|jj: int, g: int|
                    0 <= jj < j && 0 <= g < 8 ==> #[trigger] melody_event_fits(*s, i as int, jj, g),
        {
            let e = s.channels[i].events[j];
            if e.pitch != PROPERTY_UNUSED {
                for g in 0..8usize
                    invariant
                        s.channels@.len() == 16,
                        0 <= i < 8,
                        0 <= j < s.channels@[i as int].events@.len(),
                        e == s.channels@[i as int].events@[j as int],
                        e.pitch != PROPERTY_UNUSED,
                        forall|h: int|
                            0 <= h < g ==> #[trigger] melody_event_fits(*s, i as int, j as int, h),
                {
                    let f = melody_frequency(g, e.pitch, s.channels[i].finetune);
                    if f > 0xFFFF {
                        proof {
                            assert(!melody_event_fits(*s, i as int, j as int, g as int));
                        }
                        return false;
                    }
                }
            }
            proof {
                assert forall|g: int| 0 <= g < 8 implies #[trigger] melody_event_fits(
                    *s,
                    i as int,
                    j as int,
                    g,
                ) by {}
            }
        }
    }
    for i in 8..16usize
        invariant
            s.channels@.len() == 16,
            forall|a: int, j: int, g: int|
                0 <= a < 8 && 0 <= j < s.channels@[a].events@.len() && 0 <= g < 8
                    ==> #[trigger] melody_event_fits(*s, a, j, g),
            forall|a: int, j: int|
                8 <= a < i && 0 <= j < s.channels@[a].events@.len() ==> #[trigger] perc_event_fits(
                    *s,
                    a,
                    j,
                ),
    {
        let n = s.channels[i].events.len();
        for j in 0..n
            invariant
                s.channels@.len() == 16,
                8 <= i < 16,
                n == s.channels@[i as int].events@.len(),
                forall|a: int, jj: int, g: int|
                    0 <= a < 8 && 0 <= jj < s.channels@[a].events@.len() && 0 <= g < 8
                        ==> #[trigger] melody_event_fits(*s, a, jj, g),
                forall|a: int, jj: int|
                    8 <= a < i && 0 <= jj < s.channels@[a].events@.len()
                        ==> #[trigger] perc_event_fits(*s, a, jj),
                forall|jj: int| 0 <= jj < j ==> #[trigger] perc_event_fits(*s, i as int, jj),
        {
            let e = s.channels[i].events[j];
            if e.pitch != PROPERTY_UNUSED {
                let f = perc_frequency(e.pitch);
                if f > 0xFFFF {
                    proof {
                        assert(!perc_event_fits(*s, i as int, j as int));
                    }
                    return false;
                }
            }
        }
    }
    true
}

/// One melody tick keeps the carrier consistent with its channel.
pub proof fn lemma_melody_tick_wf(m: Melody, ch: Channel, pos: u32, ci: int)
    requires
        melody_wf(m, ch),
        forall|j: int| 0 <= j < ch.events@.len() ==> event_wf(#[trigger] ch.events@[j]),
    ensures
        melody_wf(spec_melody_tick(m, ch, pos, ci).0, ch),
{
    if melody_fires(m, ch, pos) {
        assert(event_wf(ch.events@[m.index as int]));
    }
}

/// One percussion tick keeps the carrier consistent with its channel.
pub proof fn lemma_perc_tick_wf(p: Percussion, ch: Channel, pos: u32, ci: int)
    requires
        perc_wf(p, ch),
        forall|j: int| 0 <= j < ch.events@.len() ==> event_wf(#[trigger] ch.events@[j]),
    ensures
        perc_wf(spec_perc_tick(p, ch, pos, ci).0, ch),
{
    if perc_fires(p, ch, pos) {
        assert(event_wf(ch.events@[p.index as int]));
    }
}

impl Player {
    /// Advance every melody carrier by one tick at the current position;
    /// the returned commands follow the order the carriers make their calls.
    #[verifier::rlimit(100)]
    fn tick_melodies(&mut self) -> (cmds: Vec<VoiceCmd>)
        requires
            old(self).wf(),
            freqs_fit(old(self).song),
        ensures
            cmds@ == melody_cmds_upto(
                old(self).melodies@,
                old(self).song.channels@,
                old(self).position,
                8,
            ),
            final(self).melodies@ == melodies_ticked(
                old(self).melodies@,
                old(self).song.channels@,
                old(self).position,
            ),
            *final(self) == (Player { melodies: final(self).melodies, ..*old(self) }),
            final(self).wf(),
    {
        let ghost ms = self.melodies@;
        let ghost chs = self.song.channels@;
        let ghost pos = self.position;
        let mut cmds: Vec<VoiceCmd> = Vec::new();
        for i in 0..8usize
            invariant
                old(self).wf(),
                freqs_fit(old(self).song),
                ms == old(self).melodies@,
                chs == old(self).song.channels@,
                pos == old(self).position,
                *self == (Player { melodies: self.melodies, ..*old(self) }),
                self.melodies@.len() == 8,
                forall|k: int|
                    0 <= k < i ==> #[trigger] self.melodies@[k] == melodies_ticked(ms, chs, pos)[k],
                forall|k: int| i <= k < 8 ==> #[trigger] self.melodies@[k] == ms[k],
                cmds@ == melody_cmds_upto(ms, chs, pos, i as int),
        {
            let ghost m0 = self.melodies@[i as int];
            let ghost ch = chs[i as int];
            let ghost spec_res = spec_melody_tick(m0, ch, pos, i as int);
            let ghost cmds0 = cmds@;
            let mut m = self.melodies[i];
            let pizzicato = self.song.channels[i].pizzicato;
            let events_len = self.song.channels[i].events.len();
            let fired = m.index < events_len && !m.muted
                && self.song.channels[i].events[m.index].position == self.position;
            if fired {
                let e = self.song.channels[i].events[m.index];
                let finetune = self.song.channels[i].finetune;
                if e.pitch != PROPERTY_UNUSED {
                    if m.pitch != PROPERTY_UNUSED && !pizzicato {
                        cmds.push(
                            VoiceCmd::MelodyStop {
                                channel: i as u8,
                                group: m.pitch / 12,
                                alt: m.alt,
                            },
                        );
                        m.alt = if m.alt == 0 {
                            1
                        } else {
                            0
                        };
                    }
                    m.pitch = e.pitch;
                    m.ticks = e.length as u32;
                    let ghost freq0 = cmds@;
                    for g in 0..8usize
                        invariant
                            freqs_fit(old(self).song),
                            chs == old(self).song.channels@,
                            0 <= i < 8,
                            ch == chs[i as int],
                            m0.index < ch.events@.len(),
                            e == ch.events@[m0.index as int],
                            e.pitch != PROPERTY_UNUSED,
                            finetune == ch.finetune,
                            cmds@ == freq0 + spec_freq_cmds(i as int, e.pitch, finetune).subrange(
                                0,
                                g as int,
                            ),
                    {
                        proof {
                            assert(melody_event_fits(
                                old(self).song,
                                i as int,
                                m0.index as int,
                                g as int,
                            ));
                        }
                        let f = melody_frequency(g, e.pitch, finetune);
                        cmds.push(
                            VoiceCmd::MelodyFrequency {
                                channel: i as u8,
                                group: g as u8,
                                frequency: f as u16,
                            },
                        );
                        proof {
                            let sfc = spec_freq_cmds(i as int, e.pitch, finetune);
                            assert(sfc.subrange(0, g as int).push(sfc[g as int]) =~= sfc.subrange(
                                0,
                                g as int + 1,
                            ));
                        }
                    }
                    proof {
                        let sfc = spec_freq_cmds(i as int, e.pitch, finetune);
                        assert(sfc.subrange(0, 8) =~= sfc);
                    }
                    cmds.push(
                        VoiceCmd::MelodyPlay {
                            channel: i as u8,
                            group: m.pitch / 12,
                            alt: m.alt,
                            looping: !pizzicato,
                        },
                    );
                }
                if e.volume != PROPERTY_UNUSED {
                    m.volume = e.volume;
                    if m.pitch != PROPERTY_UNUSED {
                        cmds.push(
                            VoiceCmd::MelodyVolume {
                                channel: i as u8,
                                group: m.pitch / 12,
                                alt: m.alt,
                                volume_db: volume_db(e.volume),
                            },
                        );
                    }
                }
                if e.pan != PROPERTY_UNUSED {
                    m.pan = e.pan;
                    if m.pitch != PROPERTY_UNUSED {
                        proof {
                            assert(event_wf(e));
                        }
                        cmds.push(
                            VoiceCmd::MelodyPan {
                                channel: i as u8,
                                group: m.pitch / 12,
                                alt: m.alt,
                                pan_db: pan_db(e.pan),
                            },
                        );
                    }
                }
                m.index = m.index + 1;
            }
            if m.ticks == 0 {
                if m.pitch != PROPERTY_UNUSED && !pizzicato {
                    cmds.push(
                        VoiceCmd::MelodyStop {
                            channel: i as u8,
                            group: m.pitch / 12,
                            alt: m.alt,
                        },
                    );
                    m.pitch = PROPERTY_UNUSED;
                }
            } else {
                m.ticks = m.ticks - 1;
            }
            proof {
                assert(m == spec_res.0);
                assert(cmds@ =~= cmds0 + spec_res.1);
            }
            self.melodies.set(i, m);
            proof {
                lemma_melody_tick_wf(m0, ch, pos, i as int);
            }
        }
        proof {
            assert(self.melodies@ =~= melodies_ticked(ms, chs, pos));
        }
        cmds
    }

    /// Advance every percussion carrier by one tick at the current position.
    #[verifier::rlimit(100)]
    fn tick_percussions(&mut self) -> (cmds: Vec<VoiceCmd>)
        requires
            old(self).wf(),
            freqs_fit(old(self).song),
        ensures
            cmds@ == perc_cmds_upto(
                old(self).percussions@,
                old(self).song.channels@,
                old(self).position,
                8,
            ),
            final(self).percussions@ == percussions_ticked(
                old(self).percussions@,
                old(self).song.channels@,
                old(self).position,
            ),
            *final(self) == (Player { percussions: final(self).percussions, ..*old(self) }),
            final(self).wf(),
    {
        let ghost ps = self.percussions@;
        let ghost chs = self.song.channels@;
        let ghost pos = self.position;
        let mut cmds: Vec<VoiceCmd> = Vec::new();
        for i in 0..8usize
            invariant
                old(self).wf(),
                freqs_fit(old(self).song),
                ps == old(self).percussions@,
                chs == old(self).song.channels@,
                pos == old(self).position,
                *self == (Player { percussions: self.percussions, ..*old(self) }),
                self.percussions@.len() == 8,
                forall|k: int|
                    0 <= k < i ==> #[trigger] self.percussions@[k] == percussions_ticked(
                        ps,
                        chs,
                        pos,
                    )[k],
                forall|k: int| i <= k < 8 ==> #[trigger] self.percussions@[k] == ps[k],
                cmds@ == perc_cmds_upto(ps, chs, pos, i as int),
        {
            let ghost p0 = self.percussions@[i as int];
            let ghost ch = chs[8 + i as int];
            let ghost spec_res = spec_perc_tick(p0, ch, pos, i as int);
            let ghost cmds0 = cmds@;
            let mut p = self.percussions[i];
            let events_len = self.song.channels[8 + i].events.len();
            let fired = !p.muted && p.index < events_len
                && self.song.channels[8 + i].events[p.index].position == self.position;
            if fired {
                let e = self.song.channels[8 + i].events[p.index];
                if e.pitch != PROPERTY_UNUSED {
                    proof {
                        assert(perc_event_fits(old(self).song, 8 + i as int, p0.index as int));
                    }
                    cmds.push(VoiceCmd::PercussionStop { channel: i as u8 });
                    let f = perc_frequency(e.pitch);
                    cmds.push(
                        VoiceCmd::PercussionFrequency { channel: i as u8, frequency: f as u16 },
                    );
                    cmds.push(VoiceCmd::PercussionPlay { channel: i as u8 });
                    p.pitch = e.pitch;
                }
                if e.volume != PROPERTY_UNUSED {
                    p.volume = e.volume;
                    cmds.push(
                        VoiceCmd::PercussionVolume {
                            channel: i as u8,
                            volume_db: volume_db(e.volume),
                        },
                    );
                }
                if e.pan != PROPERTY_UNUSED {
                    p.pan = e.pan;
                    proof {
                        assert(event_wf(e));
                    }
                    cmds.push(
                        VoiceCmd::PercussionPan { channel: i as u8, pan_db: pan_db(e.pan) },
                    );
                }
                p.index = p.index + 1;
            }
            proof {
                assert(p == spec_res.0);
                assert(cmds@ =~= cmds0 + spec_res.1);
            }
            self.percussions.set(i, p);
            proof {
                lemma_perc_tick_wf(p0, ch, pos, i as int);
            }
        }
        proof {
            assert(self.percussions@ =~= percussions_ticked(ps, chs, pos));
        }
        cmds
    }

    /// One sequencer tick: every channel consumes its pending event, the
    /// playhead advances, and on reaching the repeat end it jumps back to
    /// the repeat start (the previous position is kept so note-off logic on
    /// the boundary still sees a step). Returns the voice commands to apply,
    /// melody channels first, then percussion channels.
    pub fn tick(&mut self) -> (cmds: Vec<VoiceCmd>)
        requires
            old(self).wf(),
            freqs_fit(old(self).song),
        ensures
            cmds@ == spec_tick_cmds(*old(self)),
            final(self).melodies@ == melodies_after_tick(*old(self)),
            final(self).percussions@ == percussions_after_tick(*old(self)),
            final(self).position == position_after_tick(*old(self)),
            final(self).last_position == old(self).position,
            *final(self) == (Player {
                position: final(self).position,
                last_position: final(self).last_position,
                melodies: final(self).melodies,
                percussions: final(self).percussions,
                ..*old(self)
            }),
            final(self).wf(),
    {
        let mut cmds = self.tick_melodies();
        let mut pcmds = self.tick_percussions();
        cmds.append(&mut pcmds);
        self.last_position = self.position;
        self.position = if self.position == u32::MAX {
            0
        } else {
            self.position + 1
        };
        if self.position >= self.song.repeat_end {
            let ghost ticked = *self;
            let lp = self.last_position;
            let rs = self.song.repeat_start;
            self.seek(rs);
            self.last_position = lp;
            proof {
                assert forall|k: int| 0 <= k < 8 implies #[trigger] self.melodies@[k]
                    == melodies_after_tick(*old(self))[k] by {
                    assert(self.melodies@[k] == (Melody {
                        index: seek_index(
                            ticked.song.channels@[k].events@,
                            ticked.song.repeat_start,
                        ) as usize,
                        ..ticked.melodies@[k]
                    }));
                }
                assert(self.melodies@ =~= melodies_after_tick(*old(self)));
                assert forall|k: int| 0 <= k < 8 implies #[trigger] self.percussions@[k]
                    == percussions_after_tick(*old(self))[k] by {
                    assert(self.percussions@[k] == (Percussion {
                        index: seek_index(
                            ticked.song.channels@[8 + k].events@,
                            ticked.song.repeat_start,
                        ) as usize,
                        ..ticked.percussions@[k]
                    }));
                }
                assert(self.percussions@ =~= percussions_after_tick(*old(self)));
                assert forall|k: int| 0 <= k < 8 implies melody_wf(
                    #[trigger] self.melodies@[k],
                    self.song.channels@[k],
                ) by {
                    lemma_seek_from_bounds(self.song.channels@[k].events@, rs, 0);
                    assert(melody_wf(ticked.melodies@[k], ticked.song.channels@[k]));
                }
                assert forall|k: int| 0 <= k < 8 implies perc_wf(
                    #[trigger] self.percussions@[k],
                    self.song.channels@[8 + k],
                ) by {
                    lemma_seek_from_bounds(self.song.channels@[8 + k].events@, rs, 0);
                    assert(perc_wf(ticked.percussions@[k], ticked.song.channels@[8 + k]));
                }
            }
        }
        cmds
    }
}

} // verus!

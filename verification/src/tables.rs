//! Fixed tables and integer formulas of the synthesizer: wavetable periods
//! per octave group, chromatic base frequencies, pan attenuation steps, and
//! the decibel arguments the sequencer hands to voices.

use vstd::prelude::*;

verus! {

/// Wavetable period in samples for octave group `g` (`g < 8`).
pub open spec fn spec_size_table(g: int) -> u16 {
    if g <= 1 {
        256u16
    } else if g <= 3 {
        128u16
    } else if g == 4 {
        64u16
    } else if g == 5 {
        32u16
    } else if g == 6 {
        16u16
    } else {
        8u16
    }
}

/// Base frequency in Hz of chromatic scale degree `i` (`i < 12`, C = 262 Hz).
pub open spec fn spec_freq_table(i: int) -> u16 {
    if i == 0 {
        262u16
    } else if i == 1 {
        277u16
    } else if i == 2 {
        294u16
    } else if i == 3 {
        311u16
    } else if i == 4 {
        330u16
    } else if i == 5 {
        349u16
    } else if i == 6 {
        370u16
    } else if i == 7 {
        392u16
    } else if i == 8 {
        415u16
    } else if i == 9 {
        440u16
    } else if i == 10 {
        466u16
    } else {
        494u16
    }
}

/// Pan step `p` (`p < 13`); 6 is acoustically centered.
pub open spec fn spec_pan_table(p: int) -> i16 {
    if p == 0 {
        0i16
    } else if p == 1 {
        43i16
    } else if p == 2 {
        86i16
    } else if p == 3 {
        129i16
    } else if p == 4 {
        172i16
    } else if p == 5 {
        215i16
    } else if p == 6 {
        256i16
    } else if p == 7 {
        297i16
    } else if p == 8 {
        340i16
    } else if p == 9 {
        383i16
    } else if p == 10 {
        426i16
    } else if p == 11 {
        469i16
    } else {
        512i16
    }
}

/// Two to the power `g` for the eight octave groups.
pub open spec fn spec_pow2(g: int) -> int {
    if g <= 0 {
        1
    } else if g == 1 {
        2
    } else if g == 2 {
        4
    } else if g == 3 {
        8
    } else if g == 4 {
        16
    } else if g == 5 {
        32
    } else if g == 6 {
        64
    } else {
        128
    }
}

/// Octave group of a pitch: selects the wavetable period.
pub open spec fn group_of(pitch: u8) -> int {
    pitch as int / 12
}

/// Frequency in Hz of a melody voice of octave group `g` playing `pitch`
/// on a channel tuned by `finetune` (1000 means no detune).
pub open spec fn melody_freq(g: int, pitch: u8, finetune: u16) -> int {
    spec_size_table(g) * spec_freq_table(pitch as int % 12) * spec_pow2(g) / 8 + finetune - 1000
}

/// Frequency in Hz of a percussion voice playing `pitch`.
pub open spec fn perc_freq(pitch: u8) -> int {
    pitch * 800 + 100
}

/// Decibel volume (x100, -10000 silence .. 0 unity) for an event volume.
pub open spec fn volume_db_of(v: u8) -> int {
    (v * 100 / 0x7f - 0xff) * 8
}

/// Decibel pan (x100, signed: negative attenuates the right ear) for a pan
/// step `p < 13`.
pub open spec fn pan_db_of(p: int) -> int {
    (spec_pan_table(p) - 0x100) * 10
}

/// Wavetable period in samples for octave group `g`.
pub fn size_table(g: usize) -> (r: u16)
    requires
        g < 8,
    ensures
        r == spec_size_table(g as int),
{
    if g <= 1 {
        256
    } else if g <= 3 {
        128
    } else if g == 4 {
        64
    } else if g == 5 {
        32
    } else if g == 6 {
        16
    } else {
        8
    }
}

/// Pan step `p` of the pan table.
pub fn pan_table(p: usize) -> (r: i16)
    requires
        p < 13,
    ensures
        r == spec_pan_table(p as int),
{
    if p == 0 {
        0
    } else if p == 1 {
        43
    } else if p == 2 {
        86
    } else if p == 3 {
        129
    } else if p == 4 {
        172
    } else if p == 5 {
        215
    } else if p == 6 {
        256
    } else if p == 7 {
        297
    } else if p == 8 {
        340
    } else if p == 9 {
        383
    } else if p == 10 {
        426
    } else if p == 11 {
        469
    } else {
        512
    }
}

/// Base frequency in Hz of chromatic scale degree `i`.
pub fn freq_table(i: usize) -> (r: u16)
    requires
        i < 12,
    ensures
        r == spec_freq_table(i as int),
{
    if i == 0 {
        262
    } else if i == 1 {
        277
    } else if i == 2 {
        294
    } else if i == 3 {
        311
    } else if i == 4 {
        330
    } else if i == 5 {
        349
    } else if i == 6 {
        370
    } else if i == 7 {
        392
    } else if i == 8 {
        415
    } else if i == 9 {
        440
    } else if i == 10 {
        466
    } else {
        494
    }
}

/// Frequency in Hz of a melody voice, before the 16-bit cap a voice takes.
pub fn melody_frequency(g: usize, pitch: u8, finetune: u16) -> (r: u32)
    requires
        g < 8,
    ensures
        r == melody_freq(g as int, pitch, finetune),
{
    let size = size_table(g) as u32;
    let base = freq_table((pitch % 12) as usize) as u32;
    let pow: u32 = if g == 0 {
        1
    } else if g == 1 {
        2
    } else if g == 2 {
        4
    } else if g == 3 {
        8
    } else if g == 4 {
        16
    } else if g == 5 {
        32
    } else if g == 6 {
        64
    } else {
        128
    };
    size * base * pow / 8 + finetune as u32 - 1000
}

/// Frequency in Hz of a percussion voice.
pub fn perc_frequency(pitch: u8) -> (r: u32)
    ensures
        r == perc_freq(pitch),
{
    pitch as u32 * 800 + 100
}

/// Decibel volume for an event volume byte.
pub fn volume_db(v: u8) -> (r: i16)
    ensures
        r == volume_db_of(v),
{
    (v as i16 * 100 / 0x7f - 0xff) * 8
}

/// Decibel pan for a pan step.
pub fn pan_db(p: u8) -> (r: i16)
    requires
        p < 13,
    ensures
        r == pan_db_of(p as int),
{
    (pan_table(p as usize) - 0x100) * 10
}

} // verus!

//! The soundbank container: 100 melody wavetables of 256 signed samples,
//! followed by 42 length-prefixed percussion samples of unsigned bytes.

use vstd::prelude::*;

use crate::read_cursor::u32_le_of;

verus! {

/// The byte `b` reinterpreted as a signed two's-complement sample.
pub open spec fn as_signed(b: u8) -> i8 {
    if b < 128 {
        b as i8
    } else {
        (b - 256) as i8
    }
}

/// A stored sample with its sign bit flipped: unsigned 0..256 recentered to
/// signed -128..128.
pub open spec fn flip_signed(s: i8) -> i8 {
    if s >= 0 {
        (s - 128) as i8
    } else {
        (s + 128) as i8
    }
}

/// Byte offset of percussion record `i`: the 25600-byte melody block, then a
/// 4-byte length and that many bytes for every earlier record.
pub open spec fn perc_off(b: Seq<u8>, i: int) -> int
    decreases i,
{
    if i <= 0 {
        25600
    } else {
        perc_off(b, i - 1) + 4 + u32_le_of(b, perc_off(b, i - 1))
    }
}

/// Stored length of percussion record `i`.
pub open spec fn perc_len(b: Seq<u8>, i: int) -> int {
    u32_le_of(b, perc_off(b, i))
}

/// `perc_off` never decreases from record to record.
pub proof fn lemma_perc_off_mono(b: Seq<u8>, i: int, j: int)
    requires
        0 <= i <= j,
    ensures
        perc_off(b, i) <= perc_off(b, j),
    decreases j - i,
{
    if i < j {
        lemma_perc_off_mono(b, i, j - 1);
        assert(perc_len(b, j - 1) >= 0);
    }
}

/// The soundbank bytes are structurally valid: room for the melody block and
/// all 42 length prefixes, and every record lies within the data.
pub open spec fn soundbank_ok(b: Seq<u8>) -> bool {
    &&& b.len() >= 25600 + 42 * 4
    &&& perc_off(b, 42) <= b.len()
}

/// The 25600 melody wavetable samples, reinterpreted as signed.
pub open spec fn melody_bank(b: Seq<u8>) -> Seq<i8> {
    Seq::new(25600nat, |k: int| as_signed(b[k]))
}

/// Percussion record `i` as stored (signed reinterpretation, no recentering);
/// a zero-length record leaves the slot empty.
pub open spec fn perc_slot(b: Seq<u8>, i: int) -> Seq<i8> {
    if perc_len(b, i) == 0 {
        Seq::empty()
    } else {
        Seq::new(perc_len(b, i) as nat, |k: int| as_signed(b[perc_off(b, i) + 4 + k]))
    }
}

/// A percussion sample recentered from unsigned bytes to signed samples.
pub open spec fn perc_wave(raw: Seq<i8>) -> Seq<i8> {
    Seq::new(raw.len(), |k: int| flip_signed(raw[k]))
}

/// Relies on bytemuck::cast_slice: a byte slice reinterpreted in place as
/// signed eight-bit values (two's complement, same length).
#[verifier::external_body]
pub fn cast_bytes_signed(b: &[u8]) -> (r: Vec<i8>)
    ensures
        r@.len() == b@.len(),
        forall|k: int| 0 <= k < b@.len() ==> r@[k] == as_signed(#[trigger] b@[k]),
{
    bytemuck::cast_slice(b).to_vec()
}

/// A stored sample with its sign bit flipped.
pub fn flip_sample(s: i8) -> (r: i8)
    ensures
        r == flip_signed(s),
{
    if s >= 0 {
        (s as i16 - 128) as i8
    } else {
        (s as i16 + 128) as i8
    }
}

} // verus!

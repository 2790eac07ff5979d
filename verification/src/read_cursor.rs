//! A cursor over a byte slice, used by the soundbank and song loaders.

use vstd::prelude::*;

verus! {

/// Little-endian unsigned 16-bit value of the two bytes of `s` starting at `i`.
pub open spec fn u16_le_of(s: Seq<u8>, i: int) -> int {
    s[i] + 0x100 * s[i + 1]
}

/// Little-endian unsigned 32-bit value of the four bytes of `s` starting at `i`.
pub open spec fn u32_le_of(s: Seq<u8>, i: int) -> int {
    s[i] + 0x100 * s[i + 1] + 0x1_0000 * s[i + 2] + 0x100_0000 * s[i + 3]
}

/// A reading position in a byte slice: the slice held is what is left to read.
pub struct ReadCursor<'a>(pub &'a [u8]);

impl<'a> ReadCursor<'a> {
    /// Take the next `N` bytes, or `None` when fewer are left.
    pub fn next_bytes<const N: usize>(&mut self) -> (r: Option<&'a [u8]>)
        ensures
            match r {
                Some(bytes) => {
                    &&& old(self).0@.len() >= N
                    &&& bytes@ == old(self).0@.subrange(0, N as int)
                    &&& final(self).0@ == old(self).0@.subrange(N as int, old(self).0@.len() as int)
                },
                None => old(self).0@.len() < N && final(self).0@ == old(self).0@,
            },
    {
        if self.0.len() < N {
            return None;
        }
        let (bytes, next) = self.0.split_at(N);
        self.0 = next;
        Some(bytes)
    }

    /// Take the next `n` bytes; the caller must know they are there.
    pub fn next_n_bytes(&mut self, n: usize) -> (r: &'a [u8])
        requires
            n <= old(self).0@.len(),
        ensures
            r@ == old(self).0@.subrange(0, n as int),
            final(self).0@ == old(self).0@.subrange(n as int, old(self).0@.len() as int),
    {
        let (bytes, next) = self.0.split_at(n);
        self.0 = next;
        bytes
    }

    /// Take the next byte, or `None` when nothing is left.
    pub fn next_u8(&mut self) -> (r: Option<u8>)
        ensures
            match r {
                Some(b) => {
                    &&& old(self).0@.len() >= 1
                    &&& b == old(self).0@[0]
                    &&& final(self).0@ == old(self).0@.subrange(1, old(self).0@.len() as int)
                },
                None => old(self).0@.len() == 0 && final(self).0@ == old(self).0@,
            },
    {
        if self.0.len() == 0 {
            return None;
        }
        let b = self.0[0];
        let (_, next) = self.0.split_at(1);
        self.0 = next;
        Some(b)
    }

    /// Read a little-endian unsigned 16-bit value, or `None` when fewer than
    /// two bytes are left.
    pub fn next_u16_le(&mut self) -> (r: Option<u16>)
        ensures
            match r {
                Some(v) => {
                    &&& old(self).0@.len() >= 2
                    &&& v == u16_le_of(old(self).0@, 0)
                    &&& final(self).0@ == old(self).0@.subrange(2, old(self).0@.len() as int)
                },
                None => old(self).0@.len() < 2 && final(self).0@ == old(self).0@,
            },
    {
        if self.0.len() < 2 {
            return None;
        }
        let b0 = self.0[0];
        let b1 = self.0[1];
        let (_, next) = self.0.split_at(2);
        self.0 = next;
        Some(b0 as u16 + 0x100 * b1 as u16)
    }

    /// Read a little-endian unsigned 32-bit value, or `None` when fewer than
    /// four bytes are left.
    pub fn next_u32_le(&mut self) -> (r: Option<u32>)
        ensures
            match r {
                Some(v) => {
                    &&& old(self).0@.len() >= 4
                    &&& v == u32_le_of(old(self).0@, 0)
                    &&& final(self).0@ == old(self).0@.subrange(4, old(self).0@.len() as int)
                },
                None => old(self).0@.len() < 4 && final(self).0@ == old(self).0@,
            },
    {
        if self.0.len() < 4 {
            return None;
        }
        let b0 = self.0[0];
        let b1 = self.0[1];
        let b2 = self.0[2];
        let b3 = self.0[3];
        let (_, next) = self.0.split_at(4);
        self.0 = next;
        Some(b0 as u32 + 0x100 * b1 as u32 + 0x1_0000 * b2 as u32 + 0x100_0000 * b3 as u32)
    }

    /// The byte at `offset` from the reading position, without advancing.
    pub fn u8_at(&self, offset: usize) -> (r: u8)
        requires
            offset < self.0@.len(),
        ensures
            r == self.0@[offset as int],
    {
        self.0[offset]
    }

    /// The little-endian unsigned 16-bit value at `offset` from the reading
    /// position, without advancing.
    pub fn u16_le_at(&self, offset: usize) -> (r: u16)
        requires
            offset + 2 <= self.0@.len(),
        ensures
            r == u16_le_of(self.0@, offset as int),
    {
        let b0 = self.0[offset];
        let b1 = self.0[offset + 1];
        b0 as u16 + 0x100 * b1 as u16
    }

    /// The little-endian unsigned 32-bit value at `offset` from the reading
    /// position, without advancing.
    pub fn u32_le_at(&self, offset: usize) -> (r: u32)
        requires
            offset + 4 <= self.0@.len(),
        ensures
            r == u32_le_of(self.0@, offset as int),
    {
        let b0 = self.0[offset];
        let b1 = self.0[offset + 1];
        let b2 = self.0[offset + 2];
        let b3 = self.0[offset + 3];
        b0 as u32 + 0x100 * b1 as u32 + 0x1_0000 * b2 as u32 + 0x100_0000 * b3 as u32
    }

    /// Advance the reading position by `amount` bytes.
    pub fn skip(&mut self, amount: usize)
        requires
            amount <= old(self).0@.len(),
        ensures
            final(self).0@ == old(self).0@.subrange(amount as int, old(self).0@.len() as int),
    {
        let (_, next) = self.0.split_at(amount);
        self.0 = next;
    }
}

} // verus!

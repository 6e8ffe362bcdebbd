//! An in-memory byte source with a read position, and the integer encodings read from it.
use vstd::prelude::*;
use crate::err::Error;

verus! {

/// The little-endian `u16` stored in the two bytes of `b` starting at `p`.
pub open spec fn le_u16(b: Seq<u8>, p: int) -> u16 {
    (b[p] as int + b[p + 1] as int * 0x100) as u16
}

/// The little-endian `u32` stored in the four bytes of `b` starting at `p`.
pub open spec fn le_u32(b: Seq<u8>, p: int) -> u32 {
    (b[p] as int + b[p + 1] as int * 0x100 + b[p + 2] as int * 0x1_0000 + b[p + 3] as int
        * 0x100_0000) as u32
}

/// The little-endian `u64` stored in the eight bytes of `b` starting at `p`.
pub open spec fn le_u64(b: Seq<u8>, p: int) -> u64 {
    (le_u32(b, p) as int + le_u32(b, p + 4) as int * 0x1_0000_0000) as u64
}

/// The big-endian 48-bit value stored in the six bytes of `b` starting at `p`.
pub open spec fn be_u48(b: Seq<u8>, p: int) -> u64 {
    (b[p] as int * 0x100_0000_0000 + b[p + 1] as int * 0x1_0000_0000 + b[p + 2] as int
        * 0x100_0000 + b[p + 3] as int * 0x1_0000 + b[p + 4] as int * 0x100 + b[p + 5] as int) as u64
}

/// A byte buffer together with the position of the next read.
///
/// The position may lie past the end of the buffer (after a seek); reading there fails.
pub struct ByteCursor {
    data: Vec<u8>,
    pos: usize,
}

/// A position is never negative.
pub broadcast proof fn lemma_pos_nonneg(c: &ByteCursor)
    ensures
        0 <= #[trigger] c.pos(),
{
}

impl ByteCursor {
    /// The bytes the cursor reads from.
    pub closed spec fn bytes(&self) -> Seq<u8> {
        self.data@
    }

    /// The position of the next read.
    pub closed spec fn pos(&self) -> int {
        self.pos as int
    }

    /// Whether `n` more bytes can be read from the current position.
    pub open spec fn has(&self, n: int) -> bool {
        self.pos() + n <= self.bytes().len()
    }

    /// `next` is `self` after a read of `n` bytes that succeeded when `ok`: the buffer is the
    /// same, and the position has moved by `n`, or not at all when the read failed.
    pub open spec fn advanced(&self, next: &Self, ok: bool, n: int) -> bool {
        &&& next.bytes() == self.bytes()
        &&& ok ==> next.pos() == self.pos() + n
        &&& !ok ==> next.pos() == self.pos()
    }

    /// A cursor at the start of a copy of `buffer`.
    pub fn new(buffer: &[u8]) -> (r: ByteCursor)
        ensures
            r.bytes() == buffer@,
            r.pos() == 0,
    {
        ByteCursor { data: vstd::slice::slice_to_vec(buffer), pos: 0 }
    }

    /// A cursor at the start of `data`.
    pub fn from_vec(data: Vec<u8>) -> (r: ByteCursor)
        ensures
            r.bytes() == data@,
            r.pos() == 0,
    {
        ByteCursor { data, pos: 0 }
    }

    /// The number of bytes in the buffer.
    pub fn len(&self) -> (r: usize)
        ensures
            r == self.bytes().len(),
    {
        self.data.len()
    }

    /// The position of the next read.
    pub fn tell(&self) -> (r: usize)
        ensures
            r == self.pos(),
    {
        self.pos
    }

    /// Moves the position to `pos`, which may lie past the end of the buffer.
    pub fn seek(&mut self, pos: usize)
        ensures
            final(self).bytes() == old(self).bytes(),
            final(self).pos() == pos,
    {
        self.pos = pos;
    }

    /// Reads one byte.
    pub fn read_u8(&mut self) -> (r: Result<u8, Error>)
        ensures
            old(self).advanced(final(self), r is Ok, 1),
            old(self).has(1) ==> r == Ok::<u8, Error>(old(self).bytes()[old(self).pos()]),
            !old(self).has(1) ==> r == Err::<u8, Error>(Error::IoError),
    {
        if self.pos < self.data.len() {
            let v = self.data[self.pos];
            self.pos = self.pos + 1;
            Ok(v)
        } else {
            Err(Error::IoError)
        }
    }

    /// Reads a little-endian `u16`.
    pub fn read_u16_le(&mut self) -> (r: Result<u16, Error>)
        ensures
            old(self).advanced(final(self), r is Ok, 2),
            old(self).has(2) ==> r == Ok::<u16, Error>(le_u16(old(self).bytes(), old(self).pos())),
            !old(self).has(2) ==> r == Err::<u16, Error>(Error::IoError),
    {
        if self.pos < self.data.len() && self.data.len() - self.pos >= 2 {
            let p = self.pos;
            let v = self.data[p] as u16 + self.data[p + 1] as u16 * 0x100;
            self.pos = p + 2;
            Ok(v)
        } else {
            Err(Error::IoError)
        }
    }

    /// Reads a little-endian `u32`.
    pub fn read_u32_le(&mut self) -> (r: Result<u32, Error>)
        ensures
            old(self).advanced(final(self), r is Ok, 4),
            old(self).has(4) ==> r == Ok::<u32, Error>(le_u32(old(self).bytes(), old(self).pos())),
            !old(self).has(4) ==> r == Err::<u32, Error>(Error::IoError),
    {
        if self.pos < self.data.len() && self.data.len() - self.pos >= 4 {
            let p = self.pos;
            let v = self.data[p] as u32 + self.data[p + 1] as u32 * 0x100 + self.data[p + 2] as u32
                * 0x1_0000 + self.data[p + 3] as u32 * 0x100_0000;
            self.pos = p + 4;
            Ok(v)
        } else {
            Err(Error::IoError)
        }
    }

    /// Reads a little-endian `u64`.
    pub fn read_u64_le(&mut self) -> (r: Result<u64, Error>)
        ensures
            old(self).advanced(final(self), r is Ok, 8),
            old(self).has(8) ==> r == Ok::<u64, Error>(le_u64(old(self).bytes(), old(self).pos())),
            !old(self).has(8) ==> r == Err::<u64, Error>(Error::IoError),
    {
        if self.pos < self.data.len() && self.data.len() - self.pos >= 8 {
            let low = self.read_u32_le();
            let high = self.read_u32_le();
            match (low, high) {
                (Ok(low), Ok(high)) => Ok(low as u64 + high as u64 * 0x1_0000_0000),
                _ => Err(Error::IoError),
            }
        } else {
            Err(Error::IoError)
        }
    }

    /// Reads a big-endian 48-bit value, widened to `u64`.
    pub fn read_u48_be(&mut self) -> (r: Result<u64, Error>)
        ensures
            old(self).advanced(final(self), r is Ok, 6),
            old(self).has(6) ==> r == Ok::<u64, Error>(be_u48(old(self).bytes(), old(self).pos())),
            !old(self).has(6) ==> r == Err::<u64, Error>(Error::IoError),
    {
        if self.pos < self.data.len() && self.data.len() - self.pos >= 6 {
            let p = self.pos;
            let v = self.data[p] as u64 * 0x100_0000_0000 + self.data[p + 1] as u64 * 0x1_0000_0000
                + self.data[p + 2] as u64 * 0x100_0000 + self.data[p + 3] as u64 * 0x1_0000
                + self.data[p + 4] as u64 * 0x100 + self.data[p + 5] as u64;
            self.pos = p + 6;
            Ok(v)
        } else {
            Err(Error::IoError)
        }
    }

    /// Reads the next `n` bytes.
    pub fn read_bytes(&mut self, n: usize) -> (r: Result<Vec<u8>, Error>)
        ensures
            old(self).advanced(final(self), r is Ok, n as int),
            old(self).has(n as int) ==> r is Ok && r->Ok_0@ == old(self).bytes().subrange(
                old(self).pos(),
                old(self).pos() + n,
            ),
            !old(self).has(n as int) ==> r == Err::<Vec<u8>, Error>(Error::IoError),
    {
        if self.pos <= self.data.len() && self.data.len() - self.pos >= n {
            let start = self.pos;
            let mut out: Vec<u8> = Vec::with_capacity(n);
            let mut i: usize = start;
            while i < start + n
                invariant
                    start + n <= self.data.len(),
                    start <= i <= start + n,
                    out@ == self.data@.subrange(start as int, i as int),
                decreases start + n - i,
            {
                out.push(self.data[i]);
                i = i + 1;
            }
            self.pos = start + n;
            Ok(out)
        } else {
            Err(Error::IoError)
        }
    }
}

} // verus!

//! A positioned byte source read forward, as a decoder consumes a file.
use vstd::prelude::*;

use crate::error::ImageError;

verus! {

/// A read counter after `m` more reads, stopping at its largest value.
pub open spec fn count_after(n: u64, m: nat) -> u64 {
    if n + m <= u64::MAX {
        (n + m) as u64
    } else {
        u64::MAX
    }
}

/// The little-endian value of two bytes.
pub open spec fn le_u16(lo: u8, hi: u8) -> u16 {
    (lo as int + 256 * hi as int) as u16
}

/// Bytes read from the front, with a position and a count of the reads made.
pub struct ByteSource {
    bytes: Vec<u8>,
    pos: usize,
    reads: u64,
}

impl ByteSource {
    /// All the bytes of the source.
    pub closed spec fn data(&self) -> Seq<u8> {
        self.bytes@
    }

    /// The index of the next byte to read.
    pub closed spec fn position(&self) -> int {
        self.pos as int
    }

    /// How many reads and seeks were made.
    pub closed spec fn read_count(&self) -> u64 {
        self.reads
    }

    pub open spec fn wf(&self) -> bool {
        0 <= self.position() <= self.data().len()
    }

    /// A source positioned at the first of `bytes`.
    pub fn new(bytes: Vec<u8>) -> (r: ByteSource)
        ensures
            r.wf(),
            r.data() == bytes@,
            r.position() == 0,
            r.read_count() == 0,
    {
        ByteSource { bytes, pos: 0, reads: 0 }
    }

    /// The index of the next byte to read.
    pub fn pos(&self) -> (r: usize)
        ensures
            r == self.position(),
    {
        self.pos
    }

    /// How many bytes are left to read.
    pub fn remaining(&self) -> (r: usize)
        requires
            self.wf(),
        ensures
            r == self.data().len() - self.position(),
    {
        self.bytes.len() - self.pos
    }

    /// How many reads and seeks were made.
    pub fn reads(&self) -> (r: u64)
        ensures
            r == self.read_count(),
    {
        self.reads
    }

    fn count_read(&mut self)
        ensures
            final(self).bytes == old(self).bytes,
            final(self).pos == old(self).pos,
            final(self).reads == count_after(old(self).reads, 1),
    {
        if self.reads < u64::MAX {
            self.reads = self.reads + 1;
        }
    }

    /// Read one byte.
    pub fn read_u8(&mut self) -> (r: Result<u8, ImageError>)
        requires
            old(self).wf(),
        ensures
            final(self).wf(),
            final(self).data() == old(self).data(),
            final(self).read_count() == count_after(old(self).read_count(), 1),
            r is Ok <==> old(self).position() < old(self).data().len(),
            r is Ok ==> r->Ok_0 == old(self).data()[old(self).position()]
                && final(self).position() == old(self).position() + 1,
            r is Err ==> r->Err_0 == ImageError::UnexpectedEof
                && final(self).position() == old(self).position(),
    {
        self.count_read();
        if self.pos < self.bytes.len() {
            let b = self.bytes[self.pos];
            self.pos = self.pos + 1;
            Ok(b)
        } else {
            Err(ImageError::UnexpectedEof)
        }
    }

    /// Read a little-endian 16-bit integer.
    pub fn read_le_u16(&mut self) -> (r: Result<u16, ImageError>)
        requires
            old(self).wf(),
        ensures
            final(self).wf(),
            final(self).data() == old(self).data(),
            final(self).read_count() == count_after(old(self).read_count(), 1),
            r is Ok <==> old(self).position() + 2 <= old(self).data().len(),
            r is Ok ==> r->Ok_0 == le_u16(
                old(self).data()[old(self).position()],
                old(self).data()[old(self).position() + 1],
            ) && final(self).position() == old(self).position() + 2,
            r is Err ==> r->Err_0 == ImageError::UnexpectedEof
                && final(self).position() == old(self).position(),
    {
        self.count_read();
        if self.bytes.len() - self.pos >= 2 {
            let lo = self.bytes[self.pos];
            let hi = self.bytes[self.pos + 1];
            self.pos = self.pos + 2;
            Ok(lo as u16 + (hi as u16) * 256)
        } else {
            Err(ImageError::UnexpectedEof)
        }
    }

    /// Read exactly `n` bytes.
    pub fn read_exact(&mut self, n: usize) -> (r: Result<Vec<u8>, ImageError>)
        requires
            old(self).wf(),
        ensures
            final(self).wf(),
            final(self).data() == old(self).data(),
            final(self).read_count() == count_after(old(self).read_count(), 1),
            r is Ok <==> old(self).position() + n <= old(self).data().len(),
            r is Ok ==> r->Ok_0@ == old(self).data().subrange(
                old(self).position(),
                old(self).position() + n,
            ) && final(self).position() == old(self).position() + n,
            r is Err ==> r->Err_0 == ImageError::UnexpectedEof
                && final(self).position() == old(self).position(),
    {
        self.count_read();
        if self.bytes.len() - self.pos >= n {
            let mut out: Vec<u8> = Vec::with_capacity(n);
            let mut i: usize = 0;
            while i < n
                invariant
                    self.wf(),
                    i <= n,
                    self.pos + n <= self.bytes.len(),
                    out@ == self.bytes@.subrange(self.pos as int, self.pos + i),
                decreases n - i,
            {
                out.push(self.bytes[self.pos + i]);
                i = i + 1;
                assert(out@ =~= self.bytes@.subrange(self.pos as int, self.pos + i));
            }
            self.pos = self.pos + n;
            Ok(out)
        } else {
            Err(ImageError::UnexpectedEof)
        }
    }

    /// Move the position `n` bytes forward without reading them.
    pub fn skip(&mut self, n: usize) -> (r: Result<(), ImageError>)
        requires
            old(self).wf(),
        ensures
            final(self).wf(),
            final(self).data() == old(self).data(),
            final(self).read_count() == count_after(old(self).read_count(), 1),
            r is Ok <==> old(self).position() + n <= old(self).data().len(),
            r is Ok ==> final(self).position() == old(self).position() + n,
            r is Err ==> r->Err_0 == ImageError::UnexpectedEof
                && final(self).position() == old(self).position(),
    {
        self.count_read();
        if self.bytes.len() - self.pos >= n {
            self.pos = self.pos + n;
            Ok(())
        } else {
            Err(ImageError::UnexpectedEof)
        }
    }
}

} // verus!

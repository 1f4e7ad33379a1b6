//! The byte sinks and sources that values are written to and read from.
use vstd::prelude::*;

use crate::error::SavefileError;
use crate::le::{le_bytes, le_value, pow256, push_le, read_le};

verus! {

/// Collects the bytes of serialized values.
pub struct Serializer {
    /// The bytes written so far.
    pub writer: Vec<u8>,
    /// The data version that is being written.
    pub file_version: u32,
}

impl Serializer {
    /// An empty serializer for the given data version.
    pub fn new(file_version: u32) -> (r: Serializer)
        ensures
            r.writer@ == Seq::<u8>::empty(),
            r.file_version == file_version,
    {
        Serializer { writer: Vec::new(), file_version }
    }

    pub fn write_u8(&mut self, v: u8)
        ensures
            final(self).writer@ == old(self).writer@ + le_bytes(v as nat, 1),
            final(self).file_version == old(self).file_version,
    {
        proof { reveal_with_fuel(pow256, 2); }
        push_le(&mut self.writer, v as u64, 1);
    }

    pub fn write_u16(&mut self, v: u16)
        ensures
            final(self).writer@ == old(self).writer@ + le_bytes(v as nat, 2),
            final(self).file_version == old(self).file_version,
    {
        proof { reveal_with_fuel(pow256, 3); }
        push_le(&mut self.writer, v as u64, 2);
    }

    pub fn write_u32(&mut self, v: u32)
        ensures
            final(self).writer@ == old(self).writer@ + le_bytes(v as nat, 4),
            final(self).file_version == old(self).file_version,
    {
        proof { reveal_with_fuel(pow256, 5); }
        push_le(&mut self.writer, v as u64, 4);
    }

    pub fn write_u64(&mut self, v: u64)
        ensures
            final(self).writer@ == old(self).writer@ + le_bytes(v as nat, 8),
            final(self).file_version == old(self).file_version,
    {
        proof { reveal_with_fuel(pow256, 9); }
        push_le(&mut self.writer, v, 8);
    }

    /// Writes a length or other `usize`; it always takes eight bytes.
    pub fn write_usize(&mut self, v: usize)
        ensures
            final(self).writer@ == old(self).writer@ + le_bytes(v as nat, 8),
            final(self).file_version == old(self).file_version,
    {
        self.write_u64(v as u64);
    }

    /// Writes the given bytes as they are.
    pub fn write_bytes(&mut self, bytes: &[u8])
        ensures
            final(self).writer@ == old(self).writer@ + bytes@,
            final(self).file_version == old(self).file_version,
    {
        let ghost start = self.writer@;
        let mut i: usize = 0;
        while i < bytes.len()
            invariant
                i <= bytes@.len(),
                self.writer@ == start + bytes@.take(i as int),
                self.file_version == old(self).file_version,
            decreases bytes@.len() - i,
        {
            self.writer.push(bytes[i]);
            i = i + 1;
            assert(self.writer@ =~= start + bytes@.take(i as int));
        }
        assert(bytes@.take(i as int) =~= bytes@);
    }
}

/// Reads serialized values from a byte slice, front to back.
pub struct Deserializer<'a> {
    /// The whole input.
    pub reader: &'a [u8],
    /// The position of the next unread byte.
    pub pos: usize,
    /// The data version the input was written with.
    pub file_version: u32,
}

impl<'a> Deserializer<'a> {
    /// The position never passes the end of the input.
    pub open spec fn wf(&self) -> bool {
        self.pos <= self.reader@.len()
    }

    /// The bytes that are not read yet.
    pub open spec fn rest(&self) -> Seq<u8> {
        self.reader@.subrange(self.pos as int, self.reader@.len() as int)
    }

    /// `next` is `self` after consuming `n` bytes.
    pub open spec fn advanced(&self, next: &Deserializer, n: nat) -> bool {
        &&& next.reader@ == self.reader@
        &&& next.file_version == self.file_version
        &&& next.pos == self.pos + n
        &&& n <= self.rest().len()
    }

    /// A reader at the start of `reader`.
    pub fn new(reader: &'a [u8], file_version: u32) -> (r: Deserializer<'a>)
        ensures
            r.wf(),
            r.reader@ == reader@,
            r.pos == 0,
            r.file_version == file_version,
            r.rest() == reader@,
    {
        let r = Deserializer { reader, pos: 0, file_version };
        assert(r.rest() =~= reader@);
        r
    }

    /// The number of unread bytes.
    pub fn remaining(&self) -> (r: usize)
        requires
            self.wf(),
        ensures
            r == self.rest().len(),
    {
        self.reader.len() - self.pos
    }

    /// Reads an `n`-byte little-endian number.
    pub fn read_uint(&mut self, n: usize) -> (r: Result<u64, SavefileError>)
        requires
            old(self).wf(),
            n <= 8,
        ensures
            final(self).wf(),
            old(self).rest().len() >= n ==> (r matches Ok(v) && v as nat == le_value(
                old(self).rest().take(n as int),
            ) && old(self).advanced(&*final(self), n as nat)),
            old(self).rest().len() < n ==> (r matches Err(SavefileError::ShortRead)
                && *final(self) == *old(self)),
    {
        if self.reader.len() - self.pos < n {
            return Err(SavefileError::ShortRead);
        }
        let v = read_le(self.reader, self.pos, n);
        assert(self.reader@.subrange(self.pos as int, self.pos + n) =~= self.rest().take(
            n as int,
        ));
        self.pos = self.pos + n;
        Ok(v)
    }

    /// Copies the next `n` bytes out of the input.
    pub fn read_bytes(&mut self, n: usize) -> (r: Result<Vec<u8>, SavefileError>)
        requires
            old(self).wf(),
        ensures
            final(self).wf(),
            old(self).rest().len() >= n ==> (r matches Ok(v) && v@ == old(self).rest().take(
                n as int,
            ) && old(self).advanced(&*final(self), n as nat)),
            old(self).rest().len() < n ==> (r matches Err(SavefileError::ShortRead)
                && *final(self) == *old(self)),
    {
        if self.reader.len() - self.pos < n {
            return Err(SavefileError::ShortRead);
        }
        let mut out: Vec<u8> = Vec::new();
        let mut i: usize = 0;
        while i < n
            invariant
                i <= n,
                self.pos + n <= self.reader@.len(),
                out@ == self.reader@.subrange(self.pos as int, self.pos + i),
            decreases n - i,
        {
            assert(self.reader@.len() == self.reader.len());
            out.push(self.reader[self.pos + i]);
            i = i + 1;
            assert(out@ =~= self.reader@.subrange(self.pos as int, self.pos + i));
        }
        assert(out@ =~= self.rest().take(n as int));
        self.pos = self.pos + n;
        Ok(out)
    }
}

} // verus!

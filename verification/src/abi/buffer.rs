//! A byte buffer that starts out in a fixed block and moves to the heap when it
//! outgrows it.
use vstd::prelude::*;

verus! {

/// The number of bytes that fit in the fixed block.
pub const FLEX_BUFFER_SIZE: usize = 64;

/// A growable byte buffer: first a fixed block, then a vector once the block is full.
pub enum FlexBuffer {
    /// The bytes are the first `position` bytes of `data`.
    Stack {
        /// The number of bytes written.
        position: usize,
        /// The block holding them.
        data: [u8; 64],
    },
    /// The bytes are all of the vector.
    Spill(Vec<u8>),
}

impl FlexBuffer {
    /// The written bytes.
    pub open spec fn contents(&self) -> Seq<u8> {
        match self {
            FlexBuffer::Stack { position, data } => data@.take(*position as int),
            FlexBuffer::Spill(v) => v@,
        }
    }

    /// The position never passes the end of the block.
    pub open spec fn wf(&self) -> bool {
        match self {
            FlexBuffer::Stack { position, .. } => *position <= FLEX_BUFFER_SIZE,
            FlexBuffer::Spill(_) => true,
        }
    }

    /// An empty buffer, in the fixed block.
    pub fn new() -> (r: FlexBuffer)
        ensures
            r.wf(),
            r.contents() == Seq::<u8>::empty(),
            r is Stack,
    {
        FlexBuffer::Stack { position: 0, data: [0u8; 64] }
    }

    /// The number of bytes written.
    pub fn len(&self) -> (r: usize)
        requires
            self.wf(),
        ensures
            r == self.contents().len(),
    {
        match self {
            FlexBuffer::Stack { position, .. } => *position,
            FlexBuffer::Spill(v) => v.len(),
        }
    }

    /// A copy of the written bytes.
    pub fn as_ptr(&self) -> (r: Vec<u8>)
        requires
            self.wf(),
        ensures
            r@ == self.contents(),
    {
        match self {
            FlexBuffer::Stack { position, data } => {
                let mut out: Vec<u8> = Vec::new();
                let mut i: usize = 0;
                while i < *position
                    invariant
                        i <= *position <= 64,
                        out@ == data@.take(i as int),
                    decreases *position - i,
                {
                    out.push(data[i]);
                    assert(out@ =~= data@.take(i + 1));
                    i = i + 1;
                }
                out
            },
            FlexBuffer::Spill(v) => v.clone(),
        }
    }

    /// Appends `buf`; moves the bytes to the heap when they no longer fit the block.
    /// Returns the number of bytes written, which is all of them.
    pub fn write(&mut self, buf: &[u8]) -> (r: usize)
        requires
            old(self).wf(),
        ensures
            final(self).wf(),
            final(self).contents() == old(self).contents() + buf@,
            r == buf.len(),
            *old(self) is Stack && old(self).contents().len() + buf.len() <= FLEX_BUFFER_SIZE
                ==> *final(self) is Stack,
    {
        let ghost before = self.contents();
        match self {
            FlexBuffer::Stack { position, data } => {
                if buf.len() <= FLEX_BUFFER_SIZE - *position {
                    let start = *position;
                    let mut i: usize = 0;
                    while i < buf.len()
                        invariant
                            start + buf.len() <= 64,
                            i <= buf.len(),
                            data@.take(start as int) == before,
                            data@.subrange(start as int, start + i) == buf@.take(i as int),
                        decreases buf.len() - i,
                    {
                        data.set(start + i, buf[i]);
                        assert(data@.take(start as int) =~= before);
                        assert(data@.subrange(start as int, start + i + 1) =~= buf@.take(i + 1));
                        i = i + 1;
                    }
                    assert(buf@.take(i as int) =~= buf@);
                    assert(data@.take(start + buf.len()) =~= data@.take(start as int) + data@.subrange(
                        start as int,
                        start + buf.len(),
                    ));
                    *position = start + buf.len();
                    assert(data@.take(*position as int) =~= before + buf@);
                } else {
                    let mut spill: Vec<u8> = Vec::new();
                    let mut i: usize = 0;
                    while i < *position
                        invariant
                            i <= *position <= 64,
                            spill@ == data@.take(i as int),
                        decreases *position - i,
                    {
                        spill.push(data[i]);
                        assert(spill@ =~= data@.take(i + 1));
                        i = i + 1;
                    }
                    let mut j: usize = 0;
                    while j < buf.len()
                        invariant
                            j <= buf.len(),
                            spill@ == before + buf@.take(j as int),
                        decreases buf.len() - j,
                    {
                        spill.push(buf[j]);
                        assert(spill@ =~= before + buf@.take(j + 1));
                        j = j + 1;
                    }
                    assert(buf@.take(j as int) =~= buf@);
                    *self = FlexBuffer::Spill(spill);
                }
            },
            FlexBuffer::Spill(v) => {
                let mut j: usize = 0;
                while j < buf.len()
                    invariant
                        j <= buf.len(),
                        v@ == before + buf@.take(j as int),
                    decreases buf.len() - j,
                {
                    v.push(buf[j]);
                    assert(v@ =~= before + buf@.take(j + 1));
                    j = j + 1;
                }
                assert(buf@.take(j as int) =~= buf@);
            },
        }
        buf.len()
    }
}

/// The bytes of the chunks `ws`, one after the other.
pub open spec fn concat(ws: Seq<Seq<u8>>) -> Seq<u8>
    decreases ws.len(),
{
    if ws.len() == 0 {
        Seq::empty()
    } else {
        concat(ws.drop_last()) + ws.last()
    }
}

/// The sum of the lengths of the chunks `ws`.
pub open spec fn total_len(ws: Seq<Seq<u8>>) -> nat
    decreases ws.len(),
{
    if ws.len() == 0 {
        0
    } else {
        total_len(ws.drop_last()) + ws.last().len()
    }
}

/// A buffer that starts empty and has the chunks `ws` written to it, one
/// write each, holds those chunks one after the other, and its length is the
/// sum of their lengths: `states[i]` is the buffer after `i` writes.
pub proof fn lemma_writes_concatenate(states: Seq<FlexBuffer>, ws: Seq<Seq<u8>>)
    requires
        states.len() == ws.len() + 1,
        states[0].contents() == Seq::<u8>::empty(),
        forall|i: int|
            0 <= i < ws.len() ==> #[trigger] states[i + 1].contents() == states[i].contents() + ws[i],
    ensures
        states.last().contents() == concat(ws),
        states.last().contents().len() == total_len(ws),
    decreases ws.len(),
{
    if ws.len() > 0 {
        let n = ws.len() - 1;
        assert forall|i: int| 0 <= i < ws.drop_last().len() implies #[trigger] states.drop_last()[i
            + 1].contents() == states.drop_last()[i].contents() + ws.drop_last()[i] by {
            assert(states[i + 1].contents() == states[i].contents() + ws[i]);
        }
        lemma_writes_concatenate(states.drop_last(), ws.drop_last());
        assert(states[n + 1].contents() == states[n].contents() + ws[n]);
    }
}

} // verus!

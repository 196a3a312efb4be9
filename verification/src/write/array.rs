use vstd::prelude::*;

use std::ops::Range;

use crate::buffer::{Buffer, BufferValue};
use crate::error::TryEnqueueError;
use crate::queue::{enqueue_post, BufferSlice, QueueView};
use crate::write::{BytesSlice, WriteBytesSlice};

verus! {

/// A `N`-bytes buffer with a `HEADER_SIZE`-bytes header and a `TRAILER_SIZE`-bytes trailer.
///
/// The total size of the buffer is `N + HEADER_SIZE + TRAILER_SIZE`.
pub struct WriteArrayBuffer<const N: usize, const HEADER_SIZE: usize, const TRAILER_SIZE: usize> {
    /// Header, slots and trailer.
    pub(crate) bytes: Vec<u8>,
    /// First written slot.
    start: Ghost<nat>,
    /// Number of written slots.
    len: Ghost<nat>,
}

impl<const N: usize, const HEADER_SIZE: usize, const TRAILER_SIZE: usize> Buffer for WriteArrayBuffer<N, HEADER_SIZE, TRAILER_SIZE> {
    type Item = u8;

    closed spec fn wf(&self) -> bool {
        &&& self.bytes.len() == HEADER_SIZE + N + TRAILER_SIZE
        &&& self.start@ + self.len@ <= N
    }

    open spec fn spec_capacity(&self) -> nat {
        N as nat
    }

    closed spec fn start(&self) -> nat {
        self.start@
    }

    closed spec fn items(&self) -> Seq<u8> {
        if self.len@ == 0 {
            Seq::empty()
        } else {
            self.bytes@.subrange(HEADER_SIZE + self.start@, HEADER_SIZE + self.start@ + self.len@)
        }
    }

    proof fn lemma_window(&self) {
    }

    open spec fn default_capacity() -> nat {
        N as nat
    }

    open spec fn default_fits() -> bool {
        HEADER_SIZE + N + TRAILER_SIZE <= usize::MAX
    }

    fn default_buffer() -> (r: Self) {
        WriteArrayBuffer { bytes: vec![0u8; HEADER_SIZE + N + TRAILER_SIZE], start: Ghost(0), len: Ghost(0) }
    }

    fn capacity(&self) -> (r: usize) {
        N
    }

    fn clear(&mut self, range: Range<usize>) {
        self.start = Ghost(0);
        self.len = Ghost(0);
    }
}

impl<V: WriteBytesSlice, const N: usize, const HEADER_SIZE: usize, const TRAILER_SIZE: usize> BufferValue<
    WriteArrayBuffer<N, HEADER_SIZE, TRAILER_SIZE>,
> for V {
    open spec fn spec_size(&self) -> nat {
        WriteBytesSlice::spec_size(self)
    }

    open spec fn spec_items(&self) -> Seq<u8> {
        WriteBytesSlice::spec_bytes(self)
    }

    proof fn lemma_items_len(&self) {
        self.lemma_bytes_len();
    }

    fn size(&self) -> (r: usize) {
        WriteBytesSlice::size(self)
    }

    fn insert_into(self, buffer: &mut WriteArrayBuffer<N, HEADER_SIZE, TRAILER_SIZE>, index: usize) {
        let size = WriteBytesSlice::size(&self);
        let ghost old_bytes = buffer.bytes@;
        proof {
            self.lemma_bytes_len();
        }
        let bytes = buffer.bytes.as_mut_slice();
        let (_, rest) = bytes.split_at_mut(HEADER_SIZE + index);
        let (slot, _) = rest.split_at_mut(size);
        self.write(slot);
        proof {
            buffer.len@ = (buffer.len@ + size) as nat;
        }
        assert(buffer.bytes@.subrange(HEADER_SIZE + buffer.start@, HEADER_SIZE + index)
            =~= old_bytes.subrange(HEADER_SIZE + buffer.start@, HEADER_SIZE + index));
    }
}

impl<const N: usize, const HEADER_SIZE: usize, const TRAILER_SIZE: usize> BufferSlice<WriteArrayBuffer<N, HEADER_SIZE, TRAILER_SIZE>> {
    /// The dequeued bytes framed by the buffer's header and trailer.
    pub closed spec fn spec_frame(&self) -> Seq<u8> {
        self.buffer.bytes@.subrange(self.range.start as int, HEADER_SIZE + self.range.end + TRAILER_SIZE)
    }

    /// The frame is made of the header, the dequeued bytes and the trailer.
    pub proof fn lemma_frame(&self)
        requires
            self.wf(),
            self.items().len() > 0,
        ensures
            self.spec_frame().len() == HEADER_SIZE + self.items().len() + TRAILER_SIZE,
            self.spec_frame().subrange(HEADER_SIZE as int, HEADER_SIZE + self.items().len()) == self.items(),
    {
        assert(self.spec_frame().subrange(HEADER_SIZE as int, HEADER_SIZE + self.items().len())
            =~= self.items());
    }

    /// Returns the dequeued bytes framed by the buffer's header and trailer.
    pub fn bytes_slice(&mut self) -> (r: BytesSlice<'_, HEADER_SIZE, TRAILER_SIZE>)
        requires
            old(self).wf(),
            old(self).items().len() > 0,
        ensures
            r.wf(),
            r.spec_frame() == old(self).spec_frame(),
            final(self).index() == old(self).index(),
            final(self).end() == old(self).end(),
            final(self).queue_id() == old(self).queue_id(),
            // a mutable slice keeps its length
            final(r.0)@.len() == r.0@.len() ==> {
                &&& final(self).wf()
                &&& final(self).spec_buffer_capacity() == old(self).spec_buffer_capacity()
                &&& final(self).spec_frame() == final(r.0)@
                &&& final(self).items() == final(r.0)@.subrange(
                    HEADER_SIZE as int,
                    HEADER_SIZE + old(self).items().len(),
                )
            },
    {
        let start = self.range.start;
        let end = HEADER_SIZE + self.range.end + TRAILER_SIZE;
        let bytes = self.buffer.bytes.as_mut_slice();
        let (_, rest) = bytes.split_at_mut(start);
        let (frame, _) = rest.split_at_mut(end - start);
        BytesSlice::new(frame)
    }
}

/// Bytes enqueued in a queue of a byte array buffer keep their order: enqueuing a byte vector
/// appends exactly its bytes.
pub proof fn law_enqueued_bytes_in_order<const N: usize, const HEADER_SIZE: usize, const TRAILER_SIZE: usize>(
    before: QueueView<u8>,
    bytes: Vec<u8>,
    r: Result<(), TryEnqueueError<Vec<u8>>>,
    after: QueueView<u8>,
)
    ensures
        enqueue_post::<WriteArrayBuffer<N, HEADER_SIZE, TRAILER_SIZE>, Vec<u8>>(before, bytes, r, after) && r is Ok ==> after.enqueued
            == before.enqueued + bytes@,
{
    if enqueue_post::<WriteArrayBuffer<N, HEADER_SIZE, TRAILER_SIZE>, Vec<u8>>(before, bytes, r, after) && r is Ok && bytes@.len() == 0 {
        assert(before.enqueued + bytes@ =~= before.enqueued);
    }
}

} // verus!

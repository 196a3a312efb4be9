use vstd::prelude::*;

use std::ops::Range;

use crate::buffer::{Buffer, BufferValue, Drain};
use crate::error::TryEnqueueError;
use crate::queue::{enqueue_post, BufferSlice, QueueView};
use crate::write_vectored::{total_len, total_size, VectoredSlice};

verus! {


/// A buffer of `N` byte vectors, dequeued as a [`VectoredSlice`].
#[derive(Debug)]
pub struct WriteVectoredArrayBuffer<T, const N: usize> {
    /// Live values, the first one being at index `start`.
    pub(crate) values: Vec<T>,
    start: usize,
}

impl<const N: usize> Buffer for WriteVectoredArrayBuffer<Vec<u8>, N> {
    type Item = Vec<u8>;

    closed spec fn wf(&self) -> bool {
        self.start + self.values.len() <= N
    }

    open spec fn spec_capacity(&self) -> nat {
        N as nat
    }

    closed spec fn start(&self) -> nat {
        self.start as nat
    }

    closed spec fn items(&self) -> Seq<Vec<u8>> {
        self.values@
    }

    proof fn lemma_window(&self) {
    }

    open spec fn default_capacity() -> nat {
        N as nat
    }

    open spec fn default_fits() -> bool {
        true
    }

    fn default_buffer() -> (r: Self) {
        WriteVectoredArrayBuffer { values: Vec::with_capacity(N), start: 0 }
    }

    fn capacity(&self) -> (r: usize) {
        N
    }

    fn clear(&mut self, range: Range<usize>) {
        self.values.clear();
        self.start = 0;
    }
}

impl<const N: usize> Drain for WriteVectoredArrayBuffer<Vec<u8>, N> {
    fn remove(&mut self, index: usize) -> (r: (Vec<u8>, usize)) {
        let value = self.values.remove(0);
        self.start = self.start + 1;
        (value, 1)
    }
}

impl<const N: usize> BufferValue<WriteVectoredArrayBuffer<Vec<u8>, N>> for Vec<u8> {
    open spec fn spec_size(&self) -> nat {
        1
    }

    open spec fn spec_items(&self) -> Seq<Vec<u8>> {
        seq![*self]
    }

    proof fn lemma_items_len(&self) {
    }

    fn size(&self) -> (r: usize) {
        1
    }

    fn insert_into(self, buffer: &mut WriteVectoredArrayBuffer<Vec<u8>, N>, index: usize) {
        buffer.values.push(self);
    }
}

impl<const N: usize> BufferSlice<WriteVectoredArrayBuffer<Vec<u8>, N>> {
    /// Bytes of the dequeued values.
    pub open spec fn bytes(&self) -> Seq<Seq<u8>> {
        self.items().map_values(|v: Vec<u8>| v@)
    }

    /// Returns the dequeued values as a vectored slice.
    pub fn vectored(&self) -> (r: VectoredSlice<'_>)
        requires
            self.wf(),
            total_len(self.bytes()) <= usize::MAX,
        ensures
            r.wf(),
            r.values() == self.bytes(),
    {
        let values = &self.buffer.values;
        let total_size = total_size(values);
        VectoredSlice::new(values, total_size)
    }
}

/// Byte vectors enqueued in a queue of a vectored array buffer are appended one by one, in their order.
pub proof fn law_enqueued_vectors_in_order<const N: usize>(
    before: QueueView<Vec<u8>>,
    bytes: Vec<u8>,
    r: Result<(), TryEnqueueError<Vec<u8>>>,
    after: QueueView<Vec<u8>>,
)
    ensures
        enqueue_post::<WriteVectoredArrayBuffer<Vec<u8>, N>, Vec<u8>>(before, bytes, r, after) && r is Ok ==> after.enqueued
            == before.enqueued.push(bytes),
{
}

} // verus!

use vstd::prelude::*;

use std::ops::Range;

use crate::buffer::{Buffer, BufferValue, Drain, Resize};
use crate::error::TryEnqueueError;
use crate::queue::{enqueue_post, BufferSlice, QueueView};
use crate::write_vectored::{total_len, total_size, VectoredSlice};

verus! {


/// A buffer of byte vectors, dequeued as a [`VectoredSlice`].
#[derive(Debug)]
pub struct WriteVectoredVecBuffer<T> {
    /// Live values, the first one being at index `start`.
    pub(crate) values: Vec<T>,
    start: usize,
    capacity: usize,
}

impl Buffer for WriteVectoredVecBuffer<Vec<u8>> {
    type Item = Vec<u8>;

    closed spec fn wf(&self) -> bool {
        self.start + self.values.len() <= self.capacity
    }

    closed spec fn spec_capacity(&self) -> nat {
        self.capacity as nat
    }

    closed spec fn start(&self) -> nat {
        self.start as nat
    }

    closed spec fn items(&self) -> Seq<Vec<u8>> {
        self.values@
    }

    proof fn lemma_window(&self) {
    }

    open spec fn default_capacity() -> nat {
        0
    }

    open spec fn default_fits() -> bool {
        true
    }

    fn default_buffer() -> (r: Self) {
        WriteVectoredVecBuffer { values: Vec::new(), start: 0, capacity: 0 }
    }

    fn capacity(&self) -> (r: usize) {
        self.capacity
    }

    fn clear(&mut self, range: Range<usize>) {
        self.values.clear();
        self.start = 0;
    }
}

impl Resize for WriteVectoredVecBuffer<Vec<u8>> {
    open spec fn can_resize(capacity: nat) -> bool {
        true
    }

    fn resize(&mut self, capacity: usize) {
        self.values = Vec::with_capacity(capacity);
        self.start = 0;
        self.capacity = capacity;
    }
}

impl Drain for WriteVectoredVecBuffer<Vec<u8>> {
    fn remove(&mut self, index: usize) -> (r: (Vec<u8>, usize)) {
        let value = self.values.remove(0);
        self.start = self.start + 1;
        (value, 1)
    }
}

impl BufferValue<WriteVectoredVecBuffer<Vec<u8>>> for Vec<u8> {
    open spec fn spec_size(&self) -> nat {
        1
    }

    open spec fn spec_items(&self) -> Seq<Vec<u8>> {
        seq![*self]
    }

    proof fn lemma_items_len(&self) {
    }

    fn size(&self) -> (r: usize) {
        1
    }

    fn insert_into(self, buffer: &mut WriteVectoredVecBuffer<Vec<u8>>, index: usize) {
        buffer.values.push(self);
    }
}

impl BufferSlice<WriteVectoredVecBuffer<Vec<u8>>> {
    /// Bytes of the dequeued values.
    pub open spec fn bytes(&self) -> Seq<Seq<u8>> {
        self.items().map_values(|v: Vec<u8>| v@)
    }

    /// Returns the dequeued values as a vectored slice.
    pub fn vectored(&self) -> (r: VectoredSlice<'_>)
        requires
            self.wf(),
            total_len(self.bytes()) <= usize::MAX,
        ensures
            r.wf(),
            r.values() == self.bytes(),
    {
        let values = &self.buffer.values;
        let total_size = total_size(values);
        VectoredSlice::new(values, total_size)
    }
}

/// Byte vectors enqueued in a queue of a vectored vector buffer are appended one by one, in their order.
pub proof fn law_enqueued_vectors_in_order(
    before: QueueView<Vec<u8>>,
    bytes: Vec<u8>,
    r: Result<(), TryEnqueueError<Vec<u8>>>,
    after: QueueView<Vec<u8>>,
)
    ensures
        enqueue_post::<WriteVectoredVecBuffer<Vec<u8>>, Vec<u8>>(before, bytes, r, after) && r is Ok ==> after.enqueued
            == before.enqueued.push(bytes),
{
}

} // verus!

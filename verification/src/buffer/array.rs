use vstd::prelude::*;

use std::ops::Range;

use crate::error::TryEnqueueError;
use crate::queue::{enqueue_post, BufferSlice, QueueView};
use crate::buffer::{Buffer, BufferValue, Drain, ValueIter};

verus! {

/// A simple array buffer, of capacity `N`.
#[derive(Debug)]
pub struct ArrayBuffer<T, const N: usize> {
    /// Live values, the first one being at index `start`.
    values: Vec<T>,
    start: usize,
}

impl<T, const N: usize> ArrayBuffer<T, N> {
    /// Returns the live values of the buffer.
    pub fn slice(&self) -> (r: &[T])
        ensures
            r@ == self.items(),
    {
        self.values.as_slice()
    }
}

impl<T, const N: usize> Buffer for ArrayBuffer<T, N> {
    type Item = T;

    closed spec fn wf(&self) -> bool {
        self.start + self.values.len() <= N
    }

    open spec fn spec_capacity(&self) -> nat {
        N as nat
    }

    closed spec fn start(&self) -> nat {
        self.start as nat
    }

    closed spec fn items(&self) -> Seq<T> {
        self.values@
    }

    proof fn lemma_window(&self) {
    }

    open spec fn default_capacity() -> nat {
        N as nat
    }

    open spec fn default_fits() -> bool {
        true
    }

    fn default_buffer() -> (r: Self) {
        ArrayBuffer { values: Vec::with_capacity(N), start: 0 }
    }

    fn capacity(&self) -> (r: usize) {
        N
    }

    fn clear(&mut self, range: Range<usize>) {
        self.values.clear();
        self.start = 0;
    }
}

impl<T, const N: usize> Drain for ArrayBuffer<T, N> {
    fn remove(&mut self, index: usize) -> (r: (T, usize)) {
        let value = self.values.remove(0);
        self.start = self.start + 1;
        (value, 1)
    }
}

impl<T, const N: usize> BufferValue<ArrayBuffer<T, N>> for T {
    open spec fn spec_size(&self) -> nat {
        1
    }

    open spec fn spec_items(&self) -> Seq<T> {
        seq![*self]
    }

    proof fn lemma_items_len(&self) {
    }

    fn size(&self) -> (r: usize) {
        1
    }

    fn insert_into(self, buffer: &mut ArrayBuffer<T, N>, index: usize) {
        buffer.values.push(self);
    }
}

impl<T, const N: usize> BufferValue<ArrayBuffer<T, N>> for ValueIter<T> {
    open spec fn spec_size(&self) -> nat {
        self.0.len() as nat
    }

    open spec fn spec_items(&self) -> Seq<T> {
        self.0@
    }

    proof fn lemma_items_len(&self) {
    }

    fn size(&self) -> (r: usize) {
        self.0.len()
    }

    fn insert_into(self, buffer: &mut ArrayBuffer<T, N>, index: usize) {
        let mut values = self.0;
        buffer.values.append(&mut values);
    }
}

impl<T, const N: usize> BufferSlice<ArrayBuffer<T, N>> {
    /// Returns the dequeued values.
    pub fn as_slice(&self) -> (r: &[T])
        ensures
            r@ == self.items(),
    {
        self.buffer.slice()
    }

    /// Returns the dequeued values, mutably.
    pub fn as_mut_slice(&mut self) -> (r: &mut [T])
        requires
            old(self).wf(),
        ensures
            r@ == old(self).items(),
            final(self).index() == old(self).index(),
            final(self).end() == old(self).end(),
            final(self).queue_id() == old(self).queue_id(),
            // a mutable slice keeps its length
            final(r)@.len() == r@.len() ==> {
                &&& final(self).wf()
                &&& final(self).items() == final(r)@
                &&& final(self).spec_buffer_capacity() == old(self).spec_buffer_capacity()
            },
    {
        self.buffer.values.as_mut_slice()
    }
}

/// Values enqueued in a queue of an array buffer keep their order: a single value is appended, and
/// values enqueued together are appended one after the other, in their order.
pub proof fn law_enqueued_in_order<T, const N: usize>(
    before: QueueView<T>,
    value: T,
    r: Result<(), TryEnqueueError<T>>,
    after: QueueView<T>,
    values: ValueIter<T>,
    r_values: Result<(), TryEnqueueError<ValueIter<T>>>,
    after_values: QueueView<T>,
)
    ensures
        enqueue_post::<ArrayBuffer<T, N>, T>(before, value, r, after) && r is Ok ==> after.enqueued
            == before.enqueued.push(value),
        enqueue_post::<ArrayBuffer<T, N>, ValueIter<T>>(before, values, r_values, after_values)
            && r_values is Ok ==> after_values.enqueued == before.enqueued + values.0@,
{
    if enqueue_post::<ArrayBuffer<T, N>, ValueIter<T>>(before, values, r_values, after_values)
        && r_values is Ok && values.0@.len() == 0 {
        assert(before.enqueued + values.0@ =~= before.enqueued);
    }
}

} // verus!

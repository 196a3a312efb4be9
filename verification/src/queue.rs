//! The swap-buffer queue.
use vstd::prelude::*;

use std::ops::Range;

use crate::buffer::{Buffer, BufferValue, Drain, Resize};
use crate::error::{TryDequeueError, TryEnqueueError};
use crate::notify::Notify;

mod state;

pub use state::MAX_CAPACITY;
use state::{lemma_capacity_bound, DequeuingLength, EnqueuingCapacity, DEQUEUING_LOCKED};

verus! {

/// Abstract state of a [`Queue`].
#[verifier::ext_equal]
pub struct QueueView<I> {
    /// Whether the queue is closed.
    pub closed: bool,
    /// Capacity of the enqueuing buffer.
    pub capacity: nat,
    /// Values enqueued in the enqueuing buffer, in enqueuing order.
    pub enqueued: Seq<I>,
    /// Whether a dequeued buffer is held (by a [`BufferSlice`] or a [`BufferIter`]).
    pub held: bool,
    /// Index (0 or 1) of the dequeuing buffer.
    pub dequeuing_index: nat,
    /// End of the inserted range of the dequeuing buffer.
    pub dequeuing_end: nat,
    /// Values of the dequeuing buffer put back by a requeue, still to be dequeued.
    pub pending: Seq<I>,
    /// Capacity of the dequeuing buffer, when it is not held.
    pub next_capacity: nat,
    /// Identity of the queue, fixed at its creation: a dequeued buffer is only given back to
    /// the queue it comes from.
    pub id: int,
}

impl<I> QueueView<I> {
    /// The state with `enqueued` as enqueued values.
    pub open spec fn with_enqueued(self, enqueued: Seq<I>) -> Self {
        QueueView { enqueued, ..self }
    }

    /// The state after the dequeued buffer, of capacity `next_capacity`, is released.
    pub open spec fn released(self, next_capacity: nat) -> Self {
        QueueView {
            held: false,
            dequeuing_end: 0,
            pending: Seq::empty(),
            next_capacity,
            ..self
        }
    }

    /// The state after the dequeued buffer, of capacity `next_capacity`, is requeued with
    /// `pending` values left.
    pub open spec fn requeued(self, pending: Seq<I>, next_capacity: nat) -> Self {
        if pending.len() == 0 {
            self.released(next_capacity)
        } else {
            QueueView { held: false, pending, next_capacity, ..self }
        }
    }

    /// Values the queue will give, in order: first the requeued ones, then the enqueued ones.
    pub open spec fn contents(self) -> Seq<I> {
        self.pending + self.enqueued
    }

    /// Consistency of a state reached by the queue.
    pub open spec fn consistent(self) -> bool {
        &&& self.enqueued.len() <= self.capacity
        &&& self.dequeuing_index < 2
        &&& self.held ==> self.pending.len() == 0 && self.next_capacity == 0
        &&& !self.held ==> self.pending.len() <= self.next_capacity
        &&& !self.held && self.pending.len() == 0 ==> self.dequeuing_end == 0
    }

    /// The state after the requeued values have been dequeued again.
    pub open spec fn taken(self) -> Self {
        QueueView { held: true, pending: Seq::empty(), next_capacity: 0, ..self }
    }

    /// The state after the buffers have been swapped, the enqueuing buffer being dequeued and
    /// the dequeuing one, holding `next_enqueued` values with capacity `next_capacity`, becoming
    /// the enqueuing one.
    pub open spec fn swapped(self, next_enqueued: Seq<I>, next_capacity: nat) -> Self {
        QueueView {
            closed: self.closed,
            capacity: next_capacity,
            enqueued: next_enqueued,
            held: true,
            dequeuing_index: (1 - self.dequeuing_index) as nat,
            dequeuing_end: self.enqueued.len(),
            pending: Seq::empty(),
            next_capacity: 0,
            id: self.id,
        }
    }

    /// The error of a dequeuing that finds nothing to dequeue.
    pub open spec fn nothing_error(self) -> TryDequeueError {
        if self.closed {
            TryDequeueError::Closed
        } else {
            TryDequeueError::Empty
        }
    }
}

/// A notification sent by a [`Queue`] to its notifier.
#[derive(Debug, Copy, Clone, PartialEq, Eq, Structural)]
pub enum Notification {
    /// [`Notify::notify_dequeue`]: values can be dequeued.
    Dequeue,
    /// [`Notify::notify_enqueue`]: room has been made for enqueuing.
    Enqueue,
}

/// `swaps` notifications of the enqueuing side, one per swap of the buffers.
pub open spec fn swap_notifications(swaps: nat) -> Seq<Notification> {
    Seq::new(swaps, |i: int| Notification::Enqueue)
}

/// Appending swap notifications to `log` one by one.
proof fn lemma_swap_notifications(log: Seq<Notification>)
    ensures
        log + swap_notifications(0) == log,
        log + swap_notifications(1) == log.push(Notification::Enqueue),
        log + swap_notifications(2) == log.push(Notification::Enqueue).push(Notification::Enqueue),
        log.push(Notification::Enqueue) + swap_notifications(1) == log + swap_notifications(2),
{
    assert(log + swap_notifications(0) =~= log);
    assert(log + swap_notifications(1) =~= log.push(Notification::Enqueue));
    assert(log + swap_notifications(2) =~= log.push(Notification::Enqueue).push(Notification::Enqueue));
    assert(log.push(Notification::Enqueue) + swap_notifications(1) =~= log + swap_notifications(2));
}

/// Notifications sent by [`Queue::try_enqueue`] of a value taking `size` slots, from state
/// `before`: the dequeuing side is notified once when the value is enqueued, and nobody when the
/// value is refused or takes no slot.
pub open spec fn enqueue_notifications<I>(before: QueueView<I>, size: nat) -> Seq<Notification> {
    if size > 0 && !before.closed && before.enqueued.len() + size <= before.capacity {
        seq![Notification::Dequeue]
    } else {
        Seq::empty()
    }
}

/// Notifications sent by [`Queue::try_dequeue`] from state `before`: the enqueuing side is
/// notified once when the buffers are swapped, and nobody otherwise.
pub open spec fn dequeue_notifications<I>(before: QueueView<I>) -> Seq<Notification> {
    if !before.held && before.pending.len() == 0 && before.enqueued.len() > 0 {
        swap_notifications(1)
    } else {
        Seq::empty()
    }
}

/// Identity of a new queue: nothing is known of it, so that no buffer dequeued from another
/// queue can be shown to belong to it.
proof fn new_identity() -> (id: int) {
    0
}

/// A buffered MPSC "swap-buffer" queue.
///
/// Two buffers are used: one is being used for enqueuing while the other is dequeued.
/// Dequeuing swaps them, so the dequeued buffer holds the previously enqueued values and new
/// values go to the other (empty) buffer.
///
/// The queue's state is packed in two words, as atomic operations would update it. Operations
/// take the queue exclusively (`&mut self`): a queue shared between threads is put behind a
/// lock by its user. An enqueuing thus reserves its slots and inserts its value in one step, and
/// a dequeuing never has to wait for a pending enqueuing.
pub struct Queue<B, N = ()> {
    /// Packed closed flag, remaining capacity and enqueuing buffer index.
    enqueuing_capacity: u64,
    /// Packed dequeuing length and dequeuing buffer index, or [`DEQUEUING_LOCKED`].
    dequeuing_length: u64,
    /// The two buffers; the dequeuing one is absent while it is held.
    buffers: Vec<Option<B>>,
    /// Inserted length of each buffer.
    buffers_length: Vec<usize>,
    /// Capacity of the enqueuing buffer.
    capacity: usize,
    notify: N,
    /// Notifications sent to `notify`, in order.
    notified: Ghost<Seq<Notification>>,
    /// Identity of the queue.
    id: Ghost<int>,
}

impl<B: Buffer, N> Queue<B, N> {
    spec fn enq(&self) -> EnqueuingCapacity {
        EnqueuingCapacity(self.enqueuing_capacity)
    }

    spec fn deq(&self) -> DequeuingLength {
        DequeuingLength(self.dequeuing_length)
    }

    spec fn e(&self) -> int {
        self.enq().index() as int
    }

    spec fn d(&self) -> int {
        1 - self.e()
    }

    spec fn buffer(&self, i: int) -> B {
        self.buffers@[i]->Some_0
    }

    spec fn is_held(&self) -> bool {
        self.dequeuing_length == DEQUEUING_LOCKED
    }

    /// Consistency of the enqueuing side.
    spec fn wf_enqueuing(&self) -> bool {
        &&& self.buffers.len() == 2
        &&& self.buffers_length.len() == 2
        &&& self.buffers@[self.e()] is Some
        &&& self.buffer(self.e()).wf()
        &&& self.buffer(self.e()).start() == 0
        &&& self.buffer(self.e()).spec_capacity() == self.capacity
        &&& self.capacity <= MAX_CAPACITY
        &&& self.enq().remaining() <= self.capacity
        &&& self.buffer(self.e()).items().len() == self.capacity - self.enq().remaining()
        &&& self.buffers_length@[self.e()] == self.buffer(self.e()).items().len()
    }

    /// Consistency of the dequeuing side described by `dequeuing`, the dequeuing buffer being in
    /// the queue.
    spec fn wf_dequeuing(&self, dequeuing: DequeuingLength) -> bool {
        &&& dequeuing.index() == self.d()
        &&& self.buffers@[self.d()] is Some
        &&& self.buffer(self.d()).wf()
        &&& self.buffer(self.d()).spec_capacity() <= MAX_CAPACITY
        &&& dequeuing.len() == self.buffer(self.d()).items().len()
        &&& self.buffer(self.d()).start() + self.buffer(self.d()).items().len()
            == self.buffers_length@[self.d()]
        &&& dequeuing.len() == 0 ==> self.buffer(self.d()).start() == 0
    }

    /// Internal consistency of the queue.
    pub closed spec fn wf(&self) -> bool {
        &&& self.wf_enqueuing()
        &&& if self.is_held() {
            self.buffers@[self.d()] is None
        } else {
            self.wf_dequeuing(self.deq())
        }
    }
}

impl<B: Buffer, N> View for Queue<B, N> {
    type V = QueueView<B::Item>;

    closed spec fn view(&self) -> QueueView<B::Item> {
        QueueView {
            closed: self.enq().closed(),
            capacity: self.capacity as nat,
            enqueued: self.buffer(self.e()).items(),
            held: self.is_held(),
            dequeuing_index: self.d() as nat,
            dequeuing_end: self.buffers_length@[self.d()] as nat,
            pending: if self.is_held() {
                Seq::empty()
            } else {
                self.buffer(self.d()).items()
            },
            next_capacity: if self.is_held() {
                0
            } else {
                self.buffer(self.d()).spec_capacity()
            },
            id: self.id@,
        }
    }
}

/// Outcome of [`Queue::try_enqueue`] of `value` from state `before`: the result `r` and the state
/// `after`.
pub open spec fn enqueue_post<B: Buffer, T: BufferValue<B>>(
    before: QueueView<B::Item>,
    value: T,
    r: Result<(), TryEnqueueError<T>>,
    after: QueueView<B::Item>,
) -> bool {
    let size = value.spec_size();
    if size == 0 {
        r is Ok && after =~= before
    } else if before.closed {
        r == Err::<(), _>(TryEnqueueError::Closed(value)) && after =~= before
    } else if before.enqueued.len() + size > before.capacity {
        r == Err::<(), _>(TryEnqueueError::InsufficientCapacity(value)) && after =~= before
    } else {
        r is Ok && after =~= before.with_enqueued(before.enqueued + value.spec_items())
    }
}

impl<B: Buffer, N> Queue<B, N> {
    /// Outcome of [`Queue::try_dequeue`] from state `before`: the result `r`, the queue being
    /// `self` after.
    pub open spec fn dequeue_post(&self, before: QueueView<B::Item>, r: Result<BufferSlice<B>, TryDequeueError>) -> bool {
        if before.held {
            r == Err::<BufferSlice<B>, _>(TryDequeueError::Conflict) && self@ =~= before
        } else if before.pending.len() > 0 {
            &&& r matches Ok(slice) && slice.wf() && slice.items() == before.pending
                && slice.spec_buffer_capacity() == before.next_capacity
                && self.awaits_slice(&slice)
            &&& self@ =~= before.taken()
        } else if before.enqueued.len() == 0 {
            r == Err::<BufferSlice<B>, _>(before.nothing_error()) && self@ =~= before
        } else {
            &&& r matches Ok(slice) && slice.wf() && slice.items() == before.enqueued
                && slice.spec_buffer_capacity() == before.capacity
                && self.awaits_slice(&slice)
            &&& self@ =~= before.swapped(Seq::empty(), before.next_capacity)
        }
    }
}

impl<B: Buffer, N: Notify> Queue<B, N> {
    /// Notifies the dequeuing side, and records it.
    fn notify_dequeue_logged(&mut self)
        ensures
            final(self).notified@ == old(self).notified@.push(Notification::Dequeue),
            final(self).enqueuing_capacity == old(self).enqueuing_capacity,
            final(self).dequeuing_length == old(self).dequeuing_length,
            final(self).buffers == old(self).buffers,
            final(self).buffers_length == old(self).buffers_length,
            final(self).capacity == old(self).capacity,
            final(self).notify == old(self).notify,
            final(self).id == old(self).id,
    {
        self.notify.notify_dequeue();
        proof {
            self.notified@ = self.notified@.push(Notification::Dequeue);
        }
    }

    /// Notifies the enqueuing side, and records it.
    fn notify_enqueue_logged(&mut self)
        ensures
            final(self).notified@ == old(self).notified@.push(Notification::Enqueue),
            final(self).enqueuing_capacity == old(self).enqueuing_capacity,
            final(self).dequeuing_length == old(self).dequeuing_length,
            final(self).buffers == old(self).buffers,
            final(self).buffers_length == old(self).buffers_length,
            final(self).capacity == old(self).capacity,
            final(self).notify == old(self).notify,
            final(self).id == old(self).id,
    {
        self.notify.notify_enqueue();
        proof {
            self.notified@ = self.notified@.push(Notification::Enqueue);
        }
    }

    /// Notifies the dequeuing side that values can be dequeued, such as values waiting outside
    /// the queue.
    pub(crate) fn notify_dequeue(&mut self)
        requires
            old(self).wf(),
        ensures
            final(self).wf(),
            final(self)@ == old(self)@,
            final(self).spec_notify() == old(self).spec_notify(),
            final(self).notifications() == old(self).notifications().push(Notification::Dequeue),
    {
        self.notify_dequeue_logged();
    }

    /// Tries enqueuing the given value into the queue.
    ///
    /// Enqueuing will fail if the queue has insufficient capacity, or if it is closed. In case of
    /// success, it will notify waiting dequeuing operations using [`Notify::notify_dequeue`].
    ///
    /// Enqueuing a zero-sized value is a no-op.
    pub fn try_enqueue<T: BufferValue<B>>(&mut self, value: T) -> (r: Result<(), TryEnqueueError<T>>)
        requires
            old(self).wf(),
        ensures
            final(self).wf(),
            final(self).spec_notify() == old(self).spec_notify(),
            final(self).notifications() == old(self).notifications() + enqueue_notifications(
                old(self)@,
                value.spec_size(),
            ),
            enqueue_post::<B, T>(old(self)@, value, r, final(self)@),
    {
        let value_size = value.size();
        if value_size == 0 {
            return Ok(());
        }
        let enqueuing = EnqueuingCapacity::from_atomic(self.enqueuing_capacity);
        if enqueuing.is_closed() {
            return Err(TryEnqueueError::Closed(value));
        }
        let next_enq = match enqueuing.try_reserve(value_size as u64) {
            Some(next_enq) => next_enq,
            None => {
                return Err(TryEnqueueError::InsufficientCapacity(value));
            },
        };
        self.enqueuing_capacity = next_enq.into_atomic();
        // Insert the value into the buffer at the index given by subtracting the remaining
        // capacity to the buffer one.
        let buffer_index = enqueuing.buffer_index() as usize;
        let mut buffer = self.buffers[buffer_index].take().unwrap();
        let index = buffer.capacity() - enqueuing.remaining_capacity() as usize;
        proof {
            value.lemma_items_len();
        }
        value.insert_into(&mut buffer, index);
        self.buffers[buffer_index] = Some(buffer);
        self.buffers_length[buffer_index] = self.buffers_length[buffer_index] + value_size;
        // Notify dequeuer.
        self.notify_dequeue_logged();
        Ok(())
    }
}


/// Dequeued buffer returned by [`Queue::try_dequeue`], holding the dequeued values.
///
/// While it is held, the queue cannot be dequeued again. It is given back to the queue with
/// [`BufferSlice::release`] (the buffer is cleared and the other buffer will be dequeued next)
/// or [`BufferSlice::requeue`] (the values will be dequeued again).
pub struct BufferSlice<B> {
    pub(crate) buffer: B,
    pub(crate) buffer_index: usize,
    pub(crate) range: Range<usize>,
    /// Identity of the queue the buffer was dequeued from.
    pub(crate) queue_id: Ghost<int>,
}

/// Iterator draining a dequeued buffer, returned by [`BufferSlice::into_iter`].
pub struct BufferIter<B> {
    pub(crate) buffer: B,
    pub(crate) buffer_index: usize,
    pub(crate) range: Range<usize>,
    /// Identity of the queue the buffer was dequeued from.
    pub(crate) queue_id: Ghost<int>,
}

/// Consistency of a dequeued buffer with its range.
pub open spec fn dequeued_wf<B: Buffer>(buffer: B, buffer_index: usize, range: Range<usize>) -> bool {
    &&& buffer.wf()
    &&& buffer.start() == range.start
    &&& range.start + buffer.items().len() == range.end
    &&& buffer_index < 2
    &&& buffer.spec_capacity() <= MAX_CAPACITY
}

impl<B: Buffer> BufferSlice<B> {
    /// Internal consistency of the slice.
    pub open(crate) spec fn wf(&self) -> bool {
        dequeued_wf(self.buffer, self.buffer_index, self.range)
    }

    /// Index of the dequeued buffer in its queue.
    pub open(crate) spec fn index(&self) -> nat {
        self.buffer_index as nat
    }

    /// Identity of the queue the buffer was dequeued from.
    pub open(crate) spec fn queue_id(&self) -> int {
        self.queue_id@
    }

    /// End of the dequeued range.
    pub open(crate) spec fn end(&self) -> nat {
        self.range.end as nat
    }

    /// The dequeued values.
    pub open(crate) spec fn items(&self) -> Seq<B::Item> {
        self.buffer.items()
    }

    /// Capacity of the dequeued buffer.
    pub open(crate) spec fn spec_buffer_capacity(&self) -> nat {
        self.buffer.spec_capacity()
    }

    /// Returns the dequeued buffer.
    pub fn buffer(&self) -> (r: &B)
        ensures
            r.items() == self.items(),
            r.spec_capacity() == self.spec_buffer_capacity(),
    {
        &self.buffer
    }

    /// Returns the number of dequeued values.
    pub fn len(&self) -> (r: usize)
        requires
            self.wf(),
        ensures
            r == self.items().len(),
    {
        self.range.end - self.range.start
    }

    /// Gives the buffer back to the queue, which clears it; the other buffer will be dequeued
    /// next.
    ///
    /// Nothing happens if the queue does not await this slice.
    pub fn release<N>(self, queue: &mut Queue<B, N>)
        requires
            self.wf(),
            self.queue_id() == old(queue)@.id,
            old(queue).wf(),
        ensures
            final(queue).wf(),
            old(queue).awaits_slice(&self) ==> final(queue)@ == old(queue)@.released(self.spec_buffer_capacity()),
            !old(queue).awaits_slice(&self) ==> final(queue)@ == old(queue)@,
            final(queue).spec_notify() == old(queue).spec_notify(),
            final(queue).notifications() == old(queue).notifications(),
    {
        queue.release(self.buffer_index, self.buffer, self.range);
    }

    /// Reinserts the buffer at the beginning of the queue; it will be dequeued again next.
    ///
    /// Nothing happens if the queue does not await this slice.
    pub fn requeue<N>(self, queue: &mut Queue<B, N>)
        requires
            self.wf(),
            self.queue_id() == old(queue)@.id,
            old(queue).wf(),
        ensures
            final(queue).wf(),
            old(queue).awaits_slice(&self) ==> final(queue)@ == old(queue)@.requeued(self.items(), self.spec_buffer_capacity()),
            !old(queue).awaits_slice(&self) ==> final(queue)@ == old(queue)@,
            final(queue).spec_notify() == old(queue).spec_notify(),
            final(queue).notifications() == old(queue).notifications(),
    {
        queue.requeue(self.buffer_index, self.buffer, self.range);
    }
}

impl<B: Drain> BufferSlice<B> {
    /// Returns an iterator draining the dequeued values.
    pub fn into_iter(self) -> (r: BufferIter<B>)
        requires
            self.wf(),
        ensures
            r.wf(),
            r.items() == self.items(),
            r.index() == self.index(),
            r.end() == self.end(),
            r.queue_id() == self.queue_id(),
            r.spec_buffer_capacity() == self.spec_buffer_capacity(),
    {
        BufferIter {
            buffer: self.buffer,
            buffer_index: self.buffer_index,
            range: self.range,
            queue_id: self.queue_id,
        }
    }
}

impl<B: Buffer> BufferIter<B> {
    /// Internal consistency of the iterator.
    pub open(crate) spec fn wf(&self) -> bool {
        dequeued_wf(self.buffer, self.buffer_index, self.range)
    }

    /// Index of the drained buffer in its queue.
    pub open(crate) spec fn index(&self) -> nat {
        self.buffer_index as nat
    }

    /// Identity of the queue the buffer was dequeued from.
    pub open(crate) spec fn queue_id(&self) -> int {
        self.queue_id@
    }

    /// End of the drained range.
    pub open(crate) spec fn end(&self) -> nat {
        self.range.end as nat
    }

    /// The values still to be drained.
    pub open(crate) spec fn items(&self) -> Seq<B::Item> {
        self.buffer.items()
    }

    /// Capacity of the drained buffer.
    pub open(crate) spec fn spec_buffer_capacity(&self) -> nat {
        self.buffer.spec_capacity()
    }

    /// Returns the number of values still to be drained.
    pub fn len(&self) -> (r: usize)
        requires
            self.wf(),
        ensures
            r == self.items().len(),
    {
        self.range.end - self.range.start
    }

    /// Turns the iterator back into a slice of the values still to be drained.
    pub fn into_slice(self) -> (r: BufferSlice<B>)
        requires
            self.wf(),
        ensures
            r.wf(),
            r.items() == self.items(),
            r.index() == self.index(),
            r.end() == self.end(),
            r.queue_id() == self.queue_id(),
            r.spec_buffer_capacity() == self.spec_buffer_capacity(),
    {
        BufferSlice {
            buffer: self.buffer,
            buffer_index: self.buffer_index,
            range: self.range,
            queue_id: self.queue_id,
        }
    }

    /// Gives the buffer back to the queue: the values still to be drained will be dequeued
    /// again next, or, if there are none left, the buffer is released.
    ///
    /// Nothing happens if the queue does not await this iterator.
    pub fn requeue<N>(self, queue: &mut Queue<B, N>)
        requires
            self.wf(),
            self.queue_id() == old(queue)@.id,
            old(queue).wf(),
        ensures
            final(queue).wf(),
            old(queue).awaits_iter(&self) ==> final(queue)@ == old(queue)@.requeued(self.items(), self.spec_buffer_capacity()),
            !old(queue).awaits_iter(&self) ==> final(queue)@ == old(queue)@,
            final(queue).spec_notify() == old(queue).spec_notify(),
            final(queue).notifications() == old(queue).notifications(),
    {
        queue.requeue(self.buffer_index, self.buffer, self.range);
    }
}

impl<B: Drain> BufferIter<B> {
    /// Removes and returns the next value, if any.
    pub fn next(&mut self) -> (r: Option<B::Item>)
        requires
            old(self).wf(),
        ensures
            final(self).wf(),
            final(self).index() == old(self).index(),
            final(self).end() == old(self).end(),
            final(self).queue_id() == old(self).queue_id(),
            final(self).spec_buffer_capacity() == old(self).spec_buffer_capacity(),
            old(self).items().len() == 0 ==> r is None && final(self).items() == old(self).items(),
            old(self).items().len() > 0 ==> r == Some(old(self).items()[0])
                && final(self).items() == old(self).items().drop_first(),
    {
        if self.range.start == self.range.end {
            return None;
        }
        let (value, size) = self.buffer.remove(self.range.start);
        self.range.start = self.range.start + size;
        Some(value)
    }
}

impl<B: Buffer, N> Queue<B, N> {
    /// Whether the queue awaits `slice` back.
    pub open spec fn awaits_slice(&self, slice: &BufferSlice<B>) -> bool {
        &&& self@.held
        &&& slice.queue_id() == self@.id
        &&& slice.index() == self@.dequeuing_index
        &&& slice.end() == self@.dequeuing_end
    }

    /// Whether the queue awaits `iter` back.
    pub open spec fn awaits_iter(&self, iter: &BufferIter<B>) -> bool {
        &&& self@.held
        &&& iter.queue_id() == self@.id
        &&& iter.index() == self@.dequeuing_index
        &&& iter.end() == self@.dequeuing_end
    }

    /// Whether the queue awaits the dequeued buffer `buffer_index` with range ending at `end`.
    spec fn awaits(&self, buffer_index: usize, end: usize) -> bool {
        &&& self.is_held()
        &&& buffer_index == self.d()
        &&& end == self.buffers_length@[self.d()]
    }

    /// Clears the dequeued buffer and its length, and releases the dequeuing "lock".
    fn release(&mut self, buffer_index: usize, buffer: B, range: Range<usize>)
        requires
            old(self).wf(),
            dequeued_wf(buffer, buffer_index, range),
        ensures
            final(self).wf(),
            old(self).awaits(buffer_index, range.end) ==> final(self)@ == old(self)@.released(buffer.spec_capacity()),
            !old(self).awaits(buffer_index, range.end) ==> final(self)@ == old(self)@,
            final(self).notify == old(self).notify,
            final(self).notified == old(self).notified,
    {
        if !self.awaits_exec(buffer_index, range.end) {
            return;
        }
        let mut buffer = buffer;
        buffer.clear(range);
        self.buffers[buffer_index] = Some(buffer);
        self.buffers_length[buffer_index] = 0;
        self.dequeuing_length = DequeuingLength::new(buffer_index as u64, 0).into_atomic();
    }

    /// Saves the dequeuing state, so the remaining values will be dequeued again (or releases
    /// the buffer if nothing remains).
    fn requeue(&mut self, buffer_index: usize, buffer: B, range: Range<usize>)
        requires
            old(self).wf(),
            dequeued_wf(buffer, buffer_index, range),
        ensures
            final(self).wf(),
            old(self).awaits(buffer_index, range.end) ==> final(self)@ == old(self)@.requeued(buffer.items(), buffer.spec_capacity()),
            !old(self).awaits(buffer_index, range.end) ==> final(self)@ == old(self)@,
            final(self).notify == old(self).notify,
            final(self).notified == old(self).notified,
    {
        if !self.awaits_exec(buffer_index, range.end) {
            return;
        }
        let length = range.end - range.start;
        proof {
            buffer.lemma_window();
        }
        if length > 0 {
            self.buffers[buffer_index] = Some(buffer);
            self.dequeuing_length = DequeuingLength::new(buffer_index as u64, length as u64).into_atomic();
        } else {
            self.release(buffer_index, buffer, range);
        }
    }

    fn awaits_exec(&self, buffer_index: usize, end: usize) -> (r: bool)
        requires
            self.wf(),
        ensures
            r == self.awaits(buffer_index, end),
    {
        if self.dequeuing_length != DEQUEUING_LOCKED {
            return false;
        }
        let enqueuing = EnqueuingCapacity::from_atomic(self.enqueuing_capacity);
        buffer_index as u64 == 1 - enqueuing.buffer_index() && self.buffers_length[buffer_index] == end
    }
}


impl<B: Buffer, N> Queue<B, N> {
    /// Consistency while dequeuing, before the buffers are swapped: `dequeuing` is the
    /// dequeuing state read when locking, and the dequeuing buffer has possibly been resized
    /// (`resized`) and filled with `inserted` slots.
    spec fn wf_swapping(&self, dequeuing: DequeuingLength, resized: bool, inserted: nat) -> bool {
        &&& self.wf_enqueuing()
        &&& self.is_held()
        &&& dequeuing.index() == self.d()
        &&& self.buffers@[self.d()] is Some
        &&& self.buffer(self.d()).wf()
        &&& self.buffer(self.d()).spec_capacity() <= MAX_CAPACITY
        &&& if dequeuing.len() > 0 {
            &&& !resized
            &&& inserted == 0
            &&& dequeuing.len() == self.buffer(self.d()).items().len()
            &&& self.buffer(self.d()).start() + self.buffer(self.d()).items().len()
                == self.buffers_length@[self.d()]
        } else {
            &&& self.buffer(self.d()).start() == 0
            &&& self.buffer(self.d()).items().len() == inserted
            &&& self.buffers_length@[self.d()] == inserted
        }
    }

    /// Protects from concurrent dequeuing by swapping the dequeuing state with a constant
    /// marking dequeuing conflict.
    fn lock_dequeuing(&mut self) -> (r: Result<DequeuingLength, TryDequeueError>)
        requires
            old(self).wf(),
        ensures
            old(self).is_held() ==> r == Err::<DequeuingLength, _>(TryDequeueError::Conflict)
                && *final(self) == *old(self),
            !old(self).is_held() ==> r == Ok::<_, TryDequeueError>(old(self).deq())
                && final(self).wf_swapping(old(self).deq(), false, 0)
                && final(self).enqueuing_capacity == old(self).enqueuing_capacity
                && final(self).buffers == old(self).buffers
                && final(self).buffers_length == old(self).buffers_length
                && final(self).capacity == old(self).capacity
                && final(self).notify == old(self).notify
                && final(self).notified == old(self).notified
                && final(self).id == old(self).id,
    {
        let atomic = self.dequeuing_length;
        self.dequeuing_length = DEQUEUING_LOCKED;
        DequeuingLength::try_from_atomic(atomic)
    }

    /// Takes the dequeuing buffer, whose enqueuings are all done, as a dequeued slice.
    fn try_dequeue_spin(&mut self, buffer_index: u64, length: u64) -> (r: Option<BufferSlice<B>>)
        requires
            old(self).wf_enqueuing(),
            old(self).is_held(),
            buffer_index == old(self).d(),
            old(self).buffers@[old(self).d()] is Some,
            old(self).buffer(old(self).d()).wf(),
            old(self).buffer(old(self).d()).spec_capacity() <= MAX_CAPACITY,
            0 < length,
            length == old(self).buffer(old(self).d()).items().len(),
            old(self).buffer(old(self).d()).start() + length == old(self).buffers_length@[old(self).d()],
        ensures
            final(self).wf(),
            final(self)@ == old(self)@,
            final(self).notify == old(self).notify,
            final(self).notified == old(self).notified,
            match r {
                Some(slice) => {
                    &&& slice.wf()
                    &&& slice.items() == old(self).buffer(old(self).d()).items()
                    &&& slice.spec_buffer_capacity() == old(self).buffer(old(self).d()).spec_capacity()
                    &&& final(self).awaits_slice(&slice)
                },
                None => false,
            },
    {
        // Buffers having been swapped, no more enqueuing can happen: the dequeuing buffer is
        // complete once its length reaches the expected one.
        let index = buffer_index as usize;
        let buffer_len = self.buffers_length[index];
        if buffer_len >= length as usize {
            let range = (buffer_len - length as usize)..buffer_len;
            let buffer = self.buffers[index].take().unwrap();
            return Some(BufferSlice { buffer, buffer_index: index, range, queue_id: self.id });
        }
        None
    }
}


impl<B: Buffer, N: Notify> Queue<B, N> {
    /// Swaps the buffers, the dequeuing one becoming the enqueuing one, and returns the previous
    /// enqueuing buffer as a dequeued slice.
    ///
    /// If the dequeuing state holds requeued values, they are returned instead.
    fn try_dequeue_internal(&mut self, dequeuing: DequeuingLength, resized: bool, inserted_length: usize)
        -> (r: Result<BufferSlice<B>, TryDequeueError>)
        requires
            old(self).wf_swapping(dequeuing, resized, inserted_length as nat),
        ensures
            final(self).wf(),
            final(self).notify == old(self).notify,
            final(self).notified@ == old(self).notified@ + swap_notifications(
                if dequeuing.len() > 0 {
                    0
                } else if old(self).buffer(old(self).e()).items().len() > 0 {
                    1
                } else if inserted_length > 0 {
                    2
                } else if resized {
                    1
                } else {
                    0
                },
            ),
            ({
                let enqueued = old(self).buffer(old(self).e()).items();
                let next = old(self).buffer(old(self).d());
                let closed = old(self).enq().closed();
                if dequeuing.len() > 0 {
                    &&& final(self)@ == old(self)@
                    &&& r matches Ok(slice) && slice.wf() && slice.items() == next.items()
                        && slice.spec_buffer_capacity() == next.spec_capacity()
                        && final(self).awaits_slice(&slice)
                } else if enqueued.len() == 0 && !resized && inserted_length == 0 {
                    &&& r == Err::<BufferSlice<B>, _>(
                        if closed { TryDequeueError::Closed } else { TryDequeueError::Empty },
                    )
                    &&& final(self)@ == old(self)@.released(next.spec_capacity())
                } else if enqueued.len() > 0 {
                    &&& r matches Ok(slice) && slice.wf() && slice.items() == enqueued
                        && slice.spec_buffer_capacity() == old(self).capacity
                        && final(self).awaits_slice(&slice)
                    &&& final(self)@ == (QueueView {
                        closed,
                        capacity: next.spec_capacity(),
                        enqueued: next.items(),
                        held: true,
                        dequeuing_index: old(self).e() as nat,
                        dequeuing_end: enqueued.len(),
                        pending: Seq::<B::Item>::empty(),
                        next_capacity: 0,
                        id: old(self)@.id,
                    })
                } else if inserted_length > 0 {
                    &&& r matches Ok(slice) && slice.wf() && slice.items() == next.items()
                        && slice.spec_buffer_capacity() == next.spec_capacity()
                        && final(self).awaits_slice(&slice)
                    &&& final(self)@ == (QueueView {
                        closed,
                        capacity: old(self).capacity as nat,
                        enqueued: Seq::<B::Item>::empty(),
                        held: true,
                        dequeuing_index: old(self).d() as nat,
                        dequeuing_end: inserted_length as nat,
                        pending: Seq::<B::Item>::empty(),
                        next_capacity: 0,
                        id: old(self)@.id,
                    })
                } else {
                    &&& r == Err::<BufferSlice<B>, _>(TryDequeueError::Empty)
                    &&& final(self)@ == (QueueView {
                        closed,
                        capacity: next.spec_capacity(),
                        enqueued: Seq::<B::Item>::empty(),
                        held: false,
                        dequeuing_index: old(self).e() as nat,
                        dequeuing_end: 0,
                        pending: Seq::<B::Item>::empty(),
                        next_capacity: old(self).capacity as nat,
                        id: old(self)@.id,
                    })
                }
            }),
        decreases inserted_length,
    {
        // If dequeuing length is greater than zero, it means than previous dequeuing has been
        // requeued (after partial draining for example).
        proof {
            lemma_swap_notifications(old(self).notified@);
        }
        if dequeuing.buffer_len() != 0 {
            return match self.try_dequeue_spin(dequeuing.buffer_index(), dequeuing.buffer_len()) {
                Some(slice) => Ok(slice),
                None => Err(TryDequeueError::Pending),
            };
        }
        proof {
            self.buffer(self.d()).lemma_window();
            self.buffer(self.e()).lemma_window();
        }
        let next_buffer_index = dequeuing.buffer_index();
        let next_capa = self.buffers[next_buffer_index as usize].as_ref().unwrap().capacity();
        let enqueuing = EnqueuingCapacity::from_atomic(self.enqueuing_capacity);
        let capacity = self.buffers[enqueuing.buffer_index() as usize].as_ref().unwrap().capacity();
        // If buffer is empty and has not be resized, return an error (and store back dequeuing)
        if enqueuing.remaining_capacity() == capacity as u64 && !resized && inserted_length == 0 {
            self.dequeuing_length = dequeuing.into_atomic();
            return Err(
                if enqueuing.is_closed() {
                    TryDequeueError::Closed
                } else {
                    TryDequeueError::Empty
                },
            );
        }
        // Swap buffers: previous dequeuing buffer become the enqueuing one
        let next_enqueuing = EnqueuingCapacity::new(
            next_buffer_index,
            (next_capa - inserted_length) as u64,
        );
        self.enqueuing_capacity = next_enqueuing.with_closed(enqueuing).into_atomic();
        // Update the queue capacity if needed.
        if self.capacity != next_capa {
            self.capacity = next_capa;
        }
        // Notify enqueuers.
        self.notify_enqueue_logged();
        proof {
            lemma_swap_notifications(self.notified@);
        }
        let length = capacity - enqueuing.remaining_capacity() as usize;
        if length != 0 {
            // Take ownership of the previous enqueuing buffer, then return the buffer slice.
            match self.try_dequeue_spin(enqueuing.buffer_index(), length as u64) {
                Some(slice) => Ok(slice),
                None => Err(TryDequeueError::Pending),
            }
        } else if inserted_length > 0 {
            // The enqueuing buffer was empty, but values have been inserted while resizing:
            // dequeue them.
            self.try_dequeue_internal(DequeuingLength::new(enqueuing.buffer_index(), 0), false, 0)
        } else {
            // Empty enqueuing buffer, resized dequeuing one: acknowledge the swap and return
            // empty error.
            self.dequeuing_length = DequeuingLength::new(enqueuing.buffer_index(), 0).into_atomic();
            Err(TryDequeueError::Empty)
        }
    }
}


impl<B: Buffer, N: Default> Queue<B, N> {
    /// Creates a new queue using buffer default.
    ///
    /// Buffer default may have a non-zero capacity, e.g. array buffer.
    pub fn new() -> (r: Self)
        requires
            B::default_fits(),
            valid_capacity(B::default_capacity()),
        ensures
            r.wf(),
            r@ == (QueueView {
                closed: false,
                capacity: B::default_capacity(),
                enqueued: Seq::<B::Item>::empty(),
                held: false,
                dequeuing_index: 1,
                dequeuing_end: 0,
                pending: Seq::<B::Item>::empty(),
                next_capacity: B::default_capacity(),
                id: r@.id,
            }),
            r.notifications() == Seq::<Notification>::empty(),
    {
        let buffer0 = B::default_buffer();
        let buffer1 = B::default_buffer();
        let capacity = buffer0.capacity();
        proof {
            lemma_capacity_bound(capacity);
        }
        let mut buffers = Vec::new();
        buffers.push(Some(buffer0));
        buffers.push(Some(buffer1));
        Queue {
            enqueuing_capacity: EnqueuingCapacity::new(0, capacity as u64).into_atomic(),
            dequeuing_length: DequeuingLength::new(1, 0).into_atomic(),
            buffers,
            buffers_length: vec![0, 0],
            capacity,
            notify: N::default(),
            notified: Ghost(Seq::empty()),
            id: Ghost(new_identity()),
        }
    }
}

impl<B: Resize, N: Default> Queue<B, N> {
    /// Creates a new queue with the given capacity.
    pub fn with_capacity(capacity: usize) -> (r: Self)
        requires
            B::default_fits(),
            valid_capacity(capacity as nat),
            B::can_resize(capacity as nat),
        ensures
            r.wf(),
            r@ == (QueueView {
                closed: false,
                capacity: capacity as nat,
                enqueued: Seq::<B::Item>::empty(),
                held: false,
                dequeuing_index: 1,
                dequeuing_end: 0,
                pending: Seq::<B::Item>::empty(),
                next_capacity: capacity as nat,
                id: r@.id,
            }),
            r.notifications() == Seq::<Notification>::empty(),
    {
        proof {
            lemma_capacity_bound(capacity);
        }
        let mut buffer0 = B::default_buffer();
        buffer0.resize(capacity);
        let mut buffer1 = B::default_buffer();
        buffer1.resize(capacity);
        let mut buffers = Vec::new();
        buffers.push(Some(buffer0));
        buffers.push(Some(buffer1));
        Queue {
            enqueuing_capacity: EnqueuingCapacity::new(0, capacity as u64).into_atomic(),
            dequeuing_length: DequeuingLength::new(1, 0).into_atomic(),
            buffers,
            buffers_length: vec![0, 0],
            capacity,
            notify: N::default(),
            notified: Ghost(Seq::empty()),
            id: Ghost(new_identity()),
        }
    }
}

impl<B: Buffer, N> Queue<B, N> {
    /// The queue's notifier.
    pub closed spec fn spec_notify(&self) -> N {
        self.notify
    }

    /// Notifications the queue has sent to its notifier, in order.
    pub closed spec fn notifications(&self) -> Seq<Notification> {
        self.notified@
    }

    /// Returns queue's [`Notify`] implementor.
    pub fn notify(&self) -> (r: &N)
        ensures
            *r == self.spec_notify(),
    {
        &self.notify
    }

    /// Returns the current enqueuing buffer capacity.
    pub fn capacity(&self) -> (r: usize)
        ensures
            r == self@.capacity,
    {
        self.capacity
    }

    /// Returns the current enqueuing buffer length.
    pub fn len(&self) -> (r: usize)
        requires
            self.wf(),
        ensures
            r == self@.enqueued.len(),
    {
        let enqueuing = EnqueuingCapacity::from_atomic(self.enqueuing_capacity);
        self.capacity.saturating_sub(enqueuing.remaining_capacity() as usize)
    }

    /// Returns `true` if the current enqueuing buffer is empty.
    pub fn is_empty(&self) -> (r: bool)
        requires
            self.wf(),
        ensures
            r == (self@.enqueued.len() == 0),
    {
        self.len() == 0
    }

    /// Returns `true` if the queue is closed.
    pub fn is_closed(&self) -> (r: bool)
        ensures
            r == self@.closed,
    {
        EnqueuingCapacity::from_atomic(self.enqueuing_capacity).is_closed()
    }

    /// Reopen a closed queue.
    ///
    /// Calling this method when the queue is not closed has no effect.
    pub fn reopen(&mut self)
        requires
            old(self).wf(),
        ensures
            final(self).wf(),
            final(self)@ == (QueueView { closed: false, ..old(self)@ }),
            final(self).spec_notify() == old(self).spec_notify(),
            final(self).notifications() == old(self).notifications(),
    {
        EnqueuingCapacity::reopen(&mut self.enqueuing_capacity);
    }
}

impl<B: Buffer, N: Notify> Queue<B, N> {
    /// Closes the queue.
    ///
    /// Closed queue can no more accept enqueuing, but it can be dequeued while not empty.
    /// Calling this method on a closed queue has no effect.
    /// See [`reopen`](Queue::reopen) to reopen a closed queue.
    pub fn close(&mut self)
        requires
            old(self).wf(),
        ensures
            final(self).wf(),
            final(self)@ == (QueueView { closed: true, ..old(self)@ }),
            final(self).spec_notify() == old(self).spec_notify(),
            final(self).notifications() == old(self).notifications() + seq![
                Notification::Dequeue,
                Notification::Enqueue,
            ],
    {
        EnqueuingCapacity::close(&mut self.enqueuing_capacity);
        self.notify_dequeue_logged();
        self.notify_enqueue_logged();
    }

    /// Tries dequeuing a buffer with all enqueued values from the queue.
    ///
    /// This method swaps the current buffer with the other one, which is empty, and returns
    /// the previous one as a [`BufferSlice`]. Requeued values (see [`BufferSlice::requeue`]) are
    /// dequeued first.
    ///
    /// Dequeuing fails if the queue is empty, or if it is closed. Moreover, dequeuing is
    /// protected against concurrent calls, failing with [`TryDequeueError::Conflict`] error
    /// while a previously dequeued buffer has not been given back.
    pub fn try_dequeue(&mut self) -> (r: Result<BufferSlice<B>, TryDequeueError>)
        requires
            old(self).wf(),
        ensures
            final(self).wf(),
            final(self).spec_notify() == old(self).spec_notify(),
            final(self).notifications() == old(self).notifications() + dequeue_notifications(old(self)@),
            final(self).dequeue_post(old(self)@, r),
            old(self)@.held ==> r == Err::<BufferSlice<B>, _>(TryDequeueError::Conflict),
            !old(self)@.held && old(self)@.contents().len() > 0 ==> r is Ok,
    {
        let dequeuing = match self.lock_dequeuing() {
            Ok(dequeuing) => dequeuing,
            Err(error) => {
                return Err(error);
            },
        };
        self.try_dequeue_internal(dequeuing, false, 0)
    }
}


/// Total number of slots taken by `values`.
pub open spec fn total_size<B: Buffer, V: BufferValue<B>>(values: Seq<V>) -> nat
    decreases values.len(),
{
    if values.len() == 0 {
        0
    } else {
        total_size::<B, V>(values.drop_last()) + <V as BufferValue<B>>::spec_size(&values.last())
    }
}

/// Items of `values` once inserted one after the other.
pub open spec fn all_items<B: Buffer, V: BufferValue<B>>(values: Seq<V>) -> Seq<B::Item>
    decreases values.len(),
{
    if values.len() == 0 {
        Seq::empty()
    } else {
        all_items::<B, V>(values.drop_last()) + <V as BufferValue<B>>::spec_items(&values.last())
    }
}

/// Number of leading values of `values` each taking at most `capacity` slots.
pub open spec fn fitting_count<B: Buffer, V: BufferValue<B>>(values: Seq<V>, capacity: nat) -> nat
    decreases values.len(),
{
    if values.len() == 0 {
        0
    } else if <V as BufferValue<B>>::spec_size(&values[0]) > capacity {
        0
    } else {
        1 + fitting_count::<B, V>(values.drop_first(), capacity)
    }
}

/// The leading values of `values` each taking at most `capacity` slots.
pub open spec fn fitting_values<B: Buffer, V: BufferValue<B>>(values: Seq<V>, capacity: nat) -> Seq<V> {
    values.take(fitting_count::<B, V>(values, capacity) as int)
}

proof fn lemma_fitting_count<B: Buffer, V: BufferValue<B>>(values: Seq<V>, capacity: nat)
    ensures
        fitting_count::<B, V>(values, capacity) <= values.len(),
        forall|j: int| 0 <= j < fitting_count::<B, V>(values, capacity)
            ==> <V as BufferValue<B>>::spec_size(&#[trigger] values[j]) <= capacity,
        fitting_count::<B, V>(values, capacity) < values.len() ==> <V as BufferValue<B>>::spec_size(
            &values[fitting_count::<B, V>(values, capacity) as int],
        ) > capacity,
    decreases values.len(),
{
    if values.len() > 0 && <V as BufferValue<B>>::spec_size(&values[0]) <= capacity {
        let rest = values.drop_first();
        lemma_fitting_count::<B, V>(rest, capacity);
        assert forall|j: int| 0 <= j < fitting_count::<B, V>(values, capacity)
            implies <V as BufferValue<B>>::spec_size(&#[trigger] values[j]) <= capacity by {
            if j > 0 {
                assert(values[j] == rest[j - 1]);
            }
        }
        if fitting_count::<B, V>(values, capacity) < values.len() {
            assert(values[fitting_count::<B, V>(values, capacity) as int]
                == rest[fitting_count::<B, V>(rest, capacity) as int]);
        }
    }
}

/// The values take as many slots as they give items.
pub proof fn lemma_all_items_len<B: Buffer, V: BufferValue<B>>(values: Seq<V>)
    ensures
        all_items::<B, V>(values).len() == total_size::<B, V>(values),
    decreases values.len(),
{
    if values.len() > 0 {
        lemma_all_items_len::<B, V>(values.drop_last());
        values.last().lemma_items_len();
    }
}

proof fn lemma_total_size_first<B: Buffer, V: BufferValue<B>>(values: Seq<V>)
    requires
        values.len() > 0,
    ensures
        total_size::<B, V>(values) == <V as BufferValue<B>>::spec_size(&values[0]) + total_size::<B, V>(
            values.drop_first(),
        ),
    decreases values.len(),
{
    let first = values.drop_first();
    if values.len() > 1 {
        let init = values.drop_last();
        lemma_total_size_first::<B, V>(init);
        assert(init.drop_first() =~= first.drop_last());
        assert(init[0] == values[0]);
        assert(first.last() == values.last());
        assert(total_size::<B, V>(first) == total_size::<B, V>(first.drop_last())
            + <V as BufferValue<B>>::spec_size(&first.last()));
        assert(total_size::<B, V>(values) == total_size::<B, V>(init)
            + <V as BufferValue<B>>::spec_size(&values.last()));
    } else {
        assert(first.len() == 0);
        assert(values.drop_last().len() == 0);
        assert(values.last() == values[0]);
        assert(total_size::<B, V>(values) == total_size::<B, V>(values.drop_last())
            + <V as BufferValue<B>>::spec_size(&values.last()));
    }
}

/// Values whose total size is at most `capacity` all fit in it.
pub proof fn lemma_all_fit<B: Buffer, V: BufferValue<B>>(values: Seq<V>, capacity: nat)
    requires
        total_size::<B, V>(values) <= capacity,
    ensures
        fitting_values::<B, V>(values, capacity) == values,
    decreases values.len(),
{
    if values.len() > 0 {
        let first = values.drop_first();
        lemma_total_size_first::<B, V>(values);
        lemma_all_fit::<B, V>(first, capacity);
        lemma_fitting_count::<B, V>(first, capacity);
        assert(first.take(fitting_count::<B, V>(first, capacity) as int).len() == first.len());
        assert(fitting_count::<B, V>(values, capacity) == values.len());
    }
    assert(fitting_values::<B, V>(values, capacity) =~= values);
}

proof fn lemma_total_size_monotonic<B: Buffer, V: BufferValue<B>>(values: Seq<V>, i: int, k: int)
    requires
        0 <= i <= k <= values.len(),
    ensures
        total_size::<B, V>(values.take(i)) <= total_size::<B, V>(values.take(k)),
    decreases k - i,
{
    if i < k {
        lemma_total_size_monotonic::<B, V>(values, i, k - 1);
        assert(values.take(k).drop_last() =~= values.take(k - 1));
    }
}

/// Inserts the leading values of `insert` that each fit in the (empty) buffer, one after the
/// other, and returns the number of slots they take; `insert` is emptied.
fn insert_values<B: Buffer, V: BufferValue<B>>(buffer: &mut B, insert: &mut Vec<V>) -> (length: usize)
    requires
        old(buffer).wf(),
        old(buffer).start() == 0,
        old(buffer).items().len() == 0,
        total_size::<B, V>(fitting_values::<B, V>(old(insert)@, old(buffer).spec_capacity()))
            <= old(buffer).spec_capacity(),
    ensures
        final(buffer).wf(),
        final(buffer).start() == 0,
        final(buffer).spec_capacity() == old(buffer).spec_capacity(),
        final(buffer).items() == all_items::<B, V>(fitting_values::<B, V>(old(insert)@, old(buffer).spec_capacity())),
        length == final(buffer).items().len(),
        final(insert)@.len() == 0,
{
    let mut values: Vec<V> = Vec::new();
    std::mem::swap(insert, &mut values);
    let ghost all = values@;
    let ghost capa = buffer.spec_capacity();
    let ghost count = fitting_count::<B, V>(all, capa);
    proof {
        lemma_fitting_count::<B, V>(all, capa);
        lemma_total_size_monotonic::<B, V>(all, 0, count as int);
    }
    let capacity = buffer.capacity();
    let mut length: usize = 0;
    let mut i: usize = 0;
    let n = values.len();
    while i < n
        invariant_except_break
            i <= count,
            values@ == all.skip(i as int),
        invariant
            n == all.len(),
            count <= n,
            i <= n,
            capacity == capa,
            buffer.wf(),
            buffer.start() == 0,
            buffer.spec_capacity() == capa,
            buffer.items() == all_items::<B, V>(all.take(i as int)),
            length == total_size::<B, V>(all.take(i as int)),
            length == buffer.items().len(),
            total_size::<B, V>(all.take(count as int)) <= capa,
            forall|j: int| 0 <= j < count ==> <V as BufferValue<B>>::spec_size(&#[trigger] all[j]) <= capa,
            count < n ==> <V as BufferValue<B>>::spec_size(&all[count as int]) > capa,
        ensures
            i == count,
            buffer.wf(),
            buffer.start() == 0,
            buffer.spec_capacity() == capa,
            buffer.items() == all_items::<B, V>(all.take(i as int)),
            length == buffer.items().len(),
        decreases n - i,
    {
        let value = values.remove(0);
        proof {
            assert(value == all[i as int]);
            assert(all.skip(i as int).drop_first() =~= all.skip(i + 1));
            assert(all.take(i + 1).drop_last() =~= all.take(i as int));
            assert(all.take(i + 1).last() == all[i as int]);
            value.lemma_items_len();
        }
        let value_size = value.size();
        if value_size > capacity {
            break;
        }
        proof {
            lemma_total_size_monotonic::<B, V>(all, i + 1, count as int);
        }
        if value_size > 0 {
            value.insert_into(buffer, length);
            length = length + value_size;
        } else {
            assert(value.spec_items() =~= Seq::<B::Item>::empty());
            assert(buffer.items() + value.spec_items() =~= buffer.items());
        }
        i = i + 1;
    }
    length
}

/// Whether a buffer of `capacity` slots can be used in a queue: its state word keeps a bit for
/// the closed flag and one for the buffer index, so capacities reach `usize::MAX >> 2` at most
/// (exclusive).
pub open spec fn valid_capacity(capacity: nat) -> bool {
    capacity < usize::MAX >> 2
}

/// Capacity of the dequeuing buffer after its resizing to `capacity`.
pub open spec fn resized_capacity<I>(before: QueueView<I>, capacity: Option<usize>) -> nat {
    match capacity {
        Some(c) => c as nat,
        None => before.next_capacity,
    }
}

/// Condition of [`Queue::try_dequeue_and_resize`] from state `before`: the resized capacity can
/// be allocated and the inserted values fit in it.
pub open spec fn dequeue_and_resize_pre<B: Resize, V: BufferValue<B>>(
    before: QueueView<B::Item>,
    capacity: Option<usize>,
    insert: Seq<V>,
) -> bool {
    let new_capacity = resized_capacity(before, capacity);
    !before.held && before.pending.len() == 0 ==> {
        &&& new_capacity != before.next_capacity ==> valid_capacity(new_capacity)
            && B::can_resize(new_capacity)
        &&& total_size::<B, V>(fitting_values::<B, V>(insert, new_capacity)) <= new_capacity
    }
}

/// Number of buffer swaps of [`Queue::try_dequeue_and_resize`] from state `before`, each notifying
/// the enqueuing side: none when nothing is dequeued, two when the buffer is dequeued right after
/// the inserted values were made available for enqueuing.
pub open spec fn dequeue_and_resize_swaps<B: Buffer, V: BufferValue<B>>(
    before: QueueView<B::Item>,
    capacity: Option<usize>,
    insert: Seq<V>,
) -> nat {
    let new_capacity = resized_capacity(before, capacity);
    let inserted = all_items::<B, V>(fitting_values::<B, V>(insert, new_capacity));
    if before.held || before.pending.len() > 0 {
        0
    } else if before.enqueued.len() > 0 {
        1
    } else if inserted.len() > 0 {
        2
    } else if new_capacity != before.next_capacity {
        1
    } else {
        0
    }
}

impl<B: Buffer, N> Queue<B, N> {
    /// Outcome of [`Queue::try_dequeue_and_resize`] from state `before` with `insert` as values
    /// to insert: the result `r`, the queue being `self` after and `inserted` the values left to
    /// insert.
    pub open spec fn dequeue_and_resize_post<V: BufferValue<B>>(
        &self,
        before: QueueView<B::Item>,
        capacity: Option<usize>,
        insert: Seq<V>,
        r: Result<BufferSlice<B>, TryDequeueError>,
        insert_after: Seq<V>,
    ) -> bool {
        let new_capacity = resized_capacity(before, capacity);
        let resized = new_capacity != before.next_capacity;
        let inserted = all_items::<B, V>(fitting_values::<B, V>(insert, new_capacity));
        if before.held {
            &&& r == Err::<BufferSlice<B>, _>(TryDequeueError::Conflict)
            &&& self@ =~= before
            &&& insert_after =~= insert
        } else if before.pending.len() > 0 {
            &&& r matches Ok(slice) && slice.wf() && slice.items() =~= before.pending
                && slice.spec_buffer_capacity() == before.next_capacity
                && self.awaits_slice(&slice)
            &&& self@ =~= before.taken()
            &&& insert_after =~= insert
        } else {
            &&& insert_after.len() == 0
            &&& if before.enqueued.len() == 0 && !resized && inserted.len() == 0 {
                r == Err::<BufferSlice<B>, _>(before.nothing_error()) && self@ =~= before
            } else if before.enqueued.len() > 0 {
                &&& r matches Ok(slice) && slice.wf() && slice.items() =~= before.enqueued
                    && slice.spec_buffer_capacity() == before.capacity
                    && self.awaits_slice(&slice)
                &&& self@ =~= before.swapped(inserted, new_capacity)
            } else if inserted.len() > 0 {
                &&& r matches Ok(slice) && slice.wf() && slice.items() =~= inserted
                    && slice.spec_buffer_capacity() == new_capacity
                    && self.awaits_slice(&slice)
                &&& self@ =~= (QueueView { dequeuing_end: inserted.len(), ..before.taken() })
            } else {
                &&& r == Err::<BufferSlice<B>, _>(TryDequeueError::Empty)
                &&& self@ =~= (QueueView {
                    capacity: new_capacity,
                    dequeuing_index: (1 - before.dequeuing_index) as nat,
                    next_capacity: before.capacity,
                    ..before
                })
            }
        }
    }
}

impl<B: Resize, N: Notify> Queue<B, N> {
    /// Tries dequeuing a buffer with all enqueued values from the queue, and resizes the next
    /// buffer to be used for enqueuing.
    ///
    /// This method is an extension of [`try_dequeue`](Queue::try_dequeue) method. In fact,
    /// before swapping the buffers, next one is empty and protected, so it can be resized to
    /// `capacity`, and the values of `insert` can be added in it before making it available for
    /// enqueuing (they are then dequeued first). `insert` is drained; only its leading values
    /// that each fit in the buffer are inserted.
    /// This can be used to make the queue unbounded.
    ///
    /// It is worth to be noted that only one buffer is resized, so it can lead to asymmetric
    /// buffers.
    pub fn try_dequeue_and_resize<V: BufferValue<B>>(&mut self, capacity: Option<usize>, insert: &mut Vec<V>)
        -> (r: Result<BufferSlice<B>, TryDequeueError>)
        requires
            old(self).wf(),
            dequeue_and_resize_pre::<B, V>(old(self)@, capacity, old(insert)@),
        ensures
            final(self).wf(),
            final(self).spec_notify() == old(self).spec_notify(),
            final(self).notifications() == old(self).notifications() + swap_notifications(
                dequeue_and_resize_swaps::<B, V>(old(self)@, capacity, old(insert)@),
            ),
            final(self).dequeue_and_resize_post::<V>(old(self)@, capacity, old(insert)@, r, final(insert)@),
            old(self)@.held ==> r == Err::<BufferSlice<B>, _>(TryDequeueError::Conflict),
            !old(self)@.held && old(self)@.contents().len() > 0 ==> r is Ok,
    {
        let dequeuing = self.lock_dequeuing()?;
        if dequeuing.buffer_len() != 0 {
            return self.try_dequeue_internal(dequeuing, false, 0);
        }
        let next_index = dequeuing.buffer_index() as usize;
        let mut next_buffer = self.buffers[next_index].take().unwrap();
        // Resize buffer if needed.
        let resized = match capacity {
            Some(capa) => {
                if capa != next_buffer.capacity() {
                    proof {
                        lemma_capacity_bound(capa);
                    }
                    next_buffer.resize(capa);
                    true
                } else {
                    false
                }
            },
            None => false,
        };
        let inserted_length = insert_values(&mut next_buffer, insert);
        self.buffers[next_index] = Some(next_buffer);
        if inserted_length > 0 {
            self.buffers_length[next_index] = self.buffers_length[next_index] + inserted_length;
        }
        self.try_dequeue_internal(dequeuing, resized, inserted_length)
    }
}


impl<B: Buffer, N> Queue<B, N> {
    /// The state of a consistent queue is consistent: the enqueued values fit in the enqueuing
    /// buffer, and nothing is pending while a dequeued buffer is held.
    pub proof fn lemma_consistent(&self)
        requires
            self.wf(),
        ensures
            self@.consistent(),
    {
        self.buffer(self.e()).lemma_window();
        if !self.is_held() {
            self.buffer(self.d()).lemma_window();
        }
    }
}

/// Enqueuing appends the enqueued values at the end of the values the queue will give.
pub proof fn law_enqueue_appends<I>(before: QueueView<I>, values: Seq<I>)
    ensures
        before.with_enqueued(before.enqueued + values).contents() == before.contents() + values,
{
    assert(before.with_enqueued(before.enqueued + values).contents() =~= before.contents() + values);
}

/// Dequeuing gives the first values the queue holds, and the queue keeps the others, in order:
/// the requeued values if there are some, else all the enqueued values.
pub proof fn law_dequeue_takes_front<I>(before: QueueView<I>)
    requires
        before.consistent(),
        !before.held,
    ensures
        before.pending.len() > 0 ==> before.pending + before.taken().contents() == before.contents(),
        before.pending.len() == 0 ==> before.enqueued + before.swapped(Seq::empty(), before.next_capacity).contents()
            == before.contents(),
{
    assert(before.pending + before.taken().contents() =~= before.contents());
    if before.pending.len() == 0 {
        assert(before.enqueued + before.swapped(Seq::empty(), before.next_capacity).contents()
            =~= before.contents());
    }
}

/// Requeuing a dequeued buffer puts its remaining values back in front of the queue, and the
/// next dequeuing gives them again.
pub proof fn law_requeue_dequeues_again<I>(held: QueueView<I>, remaining: Seq<I>, capacity: nat)
    requires
        held.consistent(),
        held.held,
        remaining.len() > 0,
    ensures
        held.requeued(remaining, capacity).contents() == remaining + held.contents(),
        !held.requeued(remaining, capacity).held,
        held.requeued(remaining, capacity).pending == remaining,
        held.requeued(remaining, capacity).taken() == held,
{
    assert(held.requeued(remaining, capacity).contents() =~= remaining + held.contents());
    assert(held.requeued(remaining, capacity).taken() =~= held);
}

/// Releasing a dequeued buffer drops its values: the next dequeuing swaps the buffers.
pub proof fn law_release_then_swap<I>(held: QueueView<I>, capacity: nat)
    requires
        held.consistent(),
        held.held,
    ensures
        held.released(capacity).contents() == held.contents(),
        !held.released(capacity).held,
        held.released(capacity).pending.len() == 0,
{
    assert(held.released(capacity).contents() =~= held.contents());
}

/// Reopening a queue undoes its closing, and closing twice is closing once.
pub proof fn law_close_reopen<I>(before: QueueView<I>)
    ensures
        !before.closed ==> (QueueView { closed: false, ..(QueueView { closed: true, ..before }) }) == before,
        (QueueView { closed: true, ..(QueueView { closed: true, ..before }) }) == (QueueView { closed: true, ..before }),
{
}

/// Dequeuing a queue holding nothing, neither enqueued nor requeued, is refused with
/// [`TryDequeueError::Empty`] ([`TryDequeueError::Closed`] once closed): the buffers are not
/// swapped, nobody is notified, and the queue is left as it was, not held, so that it can be
/// dequeued again.
pub proof fn law_empty_dequeue_is_refused<B: Buffer, N>(
    queue: &Queue<B, N>,
    before: QueueView<B::Item>,
    r: Result<BufferSlice<B>, TryDequeueError>,
)
    requires
        queue.dequeue_post(before, r),
        !before.held,
        before.pending.len() == 0,
        before.enqueued.len() == 0,
    ensures
        r == Err::<BufferSlice<B>, _>(if before.closed { TryDequeueError::Closed } else { TryDequeueError::Empty }),
        queue@ == before,
        !queue@.held,
        dequeue_notifications(before) == Seq::<Notification>::empty(),
{
}

/// The same holds of a resizing dequeuing that neither resizes nor inserts anything.
pub proof fn law_empty_resizing_dequeue_is_refused<B: Buffer, N, V: BufferValue<B>>(
    queue: &Queue<B, N>,
    before: QueueView<B::Item>,
    insert: Seq<V>,
    r: Result<BufferSlice<B>, TryDequeueError>,
    insert_after: Seq<V>,
)
    requires
        queue.dequeue_and_resize_post::<V>(before, None, insert, r, insert_after),
        !before.held,
        before.pending.len() == 0,
        before.enqueued.len() == 0,
        all_items::<B, V>(fitting_values::<B, V>(insert, before.next_capacity)).len() == 0,
    ensures
        r == Err::<BufferSlice<B>, _>(if before.closed { TryDequeueError::Closed } else { TryDequeueError::Empty }),
        queue@ == before,
        !queue@.held,
        dequeue_and_resize_swaps::<B, V>(before, None, insert) == 0,
{
}

/// A dequeuing of a queue that holds values and is not held always succeeds, closed or not: it
/// hands out the first values of the queue (the requeued ones if any, else all the enqueued
/// ones), and the queue keeps the others. Closing never makes values already in the queue
/// unreachable.
pub proof fn law_dequeue_hands_out_values<B: Buffer, N>(
    queue: &Queue<B, N>,
    before: QueueView<B::Item>,
    r: Result<BufferSlice<B>, TryDequeueError>,
)
    requires
        queue.dequeue_post(before, r),
        !before.held,
        before.contents().len() > 0,
    ensures
        r matches Ok(slice) && slice.items().len() > 0 && slice.items() + queue@.contents()
            == before.contents(),
        before.pending.len() > 0 ==> (r matches Ok(slice) && slice.items() == before.pending),
{
    if before.pending.len() > 0 {
        assert(before.pending + before.taken().contents() =~= before.contents());
    } else {
        assert(before.contents() =~= before.enqueued);
        assert(before.enqueued + before.swapped(Seq::empty(), before.next_capacity).contents()
            =~= before.contents());
    }
}

/// While a dequeued buffer is held, dequeuing fails with [`TryDequeueError::Conflict`], resizing
/// or not, and changes nothing: the queue is unchanged and nothing is inserted.
pub proof fn law_dequeue_conflicts_while_held<B: Buffer, N, V: BufferValue<B>>(
    queue: &Queue<B, N>,
    before: QueueView<B::Item>,
    capacity: Option<usize>,
    insert: Seq<V>,
    r: Result<BufferSlice<B>, TryDequeueError>,
    insert_after: Seq<V>,
)
    requires
        before.held,
    ensures
        queue.dequeue_post(before, r) ==> r == Err::<BufferSlice<B>, _>(TryDequeueError::Conflict)
            && queue@ == before,
        queue.dequeue_and_resize_post::<V>(before, capacity, insert, r, insert_after) ==> r == Err::<
            BufferSlice<B>,
            _,
        >(TryDequeueError::Conflict) && queue@ == before && insert_after == insert,
        dequeue_notifications(before) == Seq::<Notification>::empty(),
        dequeue_and_resize_swaps::<B, V>(before, capacity, insert) == 0,
{
}

} // verus!

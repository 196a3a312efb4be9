//! Decisions of the waiting (blocking or asynchronous) operations of a [`Queue`], and the
//! bookkeeping of the waiting operations; waiting and waking themselves are left to the caller.
use vstd::prelude::*;

use crate::buffer::{Buffer, BufferIter, BufferSlice, BufferValue, Drain};
use crate::error::{DequeueError, TryDequeueError, TryEnqueueError};
use crate::notify::Notify;
use crate::queue::{dequeue_notifications, enqueue_notifications, enqueue_post, Queue};

mod atomic_waker;
mod waker_list;

pub use atomic_waker::{AtomicWaker, AtomicWakerView, RegisterStart};
pub use waker_list::WakerList;

verus! {

/// Number of attempts of a waiting operation before it registers for waiting.
pub const SPIN_LIMIT: usize = 64;

/// Whether a waiting enqueuing waits after the outcome `r` of an enqueuing attempt: when the
/// value did not fit in the remaining capacity but fits in the whole buffer, it will once a
/// buffer is dequeued.
pub open spec fn enqueue_waits<T>(r: Result<(), TryEnqueueError<T>>, size: nat, capacity: nat) -> bool {
    r matches Err(TryEnqueueError::InsufficientCapacity(_)) && size <= capacity
}

/// An enqueuing attempt of a waiting enqueuing: returns the value back (`Err`) when the
/// enqueuing has to wait for a dequeuing, or the final result of the enqueuing (`Ok`).
pub fn try_enqueue_or_wait<B: Buffer, N: Notify, T: BufferValue<B>>(queue: &mut Queue<B, N>, value: T)
    -> (r: Result<Result<(), TryEnqueueError<T>>, T>)
    requires
        old(queue).wf(),
    ensures
        final(queue).wf(),
        final(queue).spec_notify() == old(queue).spec_notify(),
        final(queue).notifications() == old(queue).notifications() + enqueue_notifications(
            old(queue)@,
            value.spec_size(),
        ),
        ({
            let before = old(queue)@;
            let size = value.spec_size();
            let waits = size > 0 && !before.closed && before.enqueued.len() + size > before.capacity
                && size <= before.capacity;
            &&& waits ==> r == Err::<Result<(), TryEnqueueError<T>>, T>(value) && final(queue)@ == before
            &&& !waits ==> (r matches Ok(res) && enqueue_post::<B, T>(before, value, res, final(queue)@))
        }),
{
    match queue.try_enqueue(value) {
        Err(TryEnqueueError::InsufficientCapacity(v)) => {
            if v.size() <= queue.capacity() {
                Err(v)
            } else {
                Ok(Err(TryEnqueueError::InsufficientCapacity(v)))
            }
        },
        res => Ok(res),
    }
}

/// A dequeuing attempt of a waiting dequeuing: returns `None` when the dequeuing has to wait for
/// an enqueuing (the queue is empty or an enqueuing is pending), or the final result of the
/// dequeuing.
pub fn try_dequeue_or_wait<B: Buffer, N: Notify>(queue: &mut Queue<B, N>)
    -> (r: Option<Result<BufferSlice<B>, TryDequeueError>>)
    requires
        old(queue).wf(),
    ensures
        final(queue).wf(),
        final(queue).spec_notify() == old(queue).spec_notify(),
        final(queue).notifications() == old(queue).notifications() + dequeue_notifications(old(queue)@),
        ({
            let before = old(queue)@;
            let waits = !before.held && before.pending.len() == 0 && before.enqueued.len() == 0
                && !before.closed;
            &&& waits ==> r is None && final(queue)@ == before
            &&& !waits ==> (r matches Some(res) && final(queue).dequeue_post(before, res))
        }),
{
    match queue.try_dequeue() {
        Err(TryDequeueError::Empty) => None,
        Err(TryDequeueError::Pending) => None,
        res => Some(res),
    }
}

/// A step of an iteration over the values of a queue: takes the next value of the current
/// draining iterator, if any; an exhausted iterator is given back to the queue (which releases
/// its buffer), so that the caller dequeues the next buffer.
pub fn iter_next<B: Drain, N: Notify>(queue: &mut Queue<B, N>, iter: &mut Option<BufferIter<B>>)
    -> (r: Option<B::Item>)
    requires
        old(queue).wf(),
        *old(iter) matches Some(it) ==> it.wf() && it.queue_id() == old(queue)@.id,
    ensures
        final(queue).wf(),
        final(queue).spec_notify() == old(queue).spec_notify(),
        final(queue).notifications() == old(queue).notifications(),
        match *old(iter) {
            None => r is None && *final(iter) is None && final(queue)@ == old(queue)@,
            Some(it) => if it.items().len() > 0 {
                &&& r == Some(it.items()[0])
                &&& *final(iter) matches Some(next) && next.wf() && next.items() == it.items().drop_first()
                    && next.index() == it.index() && next.end() == it.end() && next.queue_id() == it.queue_id()
                    && next.spec_buffer_capacity() == it.spec_buffer_capacity()
                &&& final(queue)@ == old(queue)@
            } else {
                &&& r is None
                &&& *final(iter) is None
                &&& old(queue).awaits_iter(&it) ==> final(queue)@ == old(queue)@.released(
                    it.spec_buffer_capacity(),
                )
                &&& !old(queue).awaits_iter(&it) ==> final(queue)@ == old(queue)@
            },
        },
{
    match iter.take() {
        None => None,
        Some(mut it) => match it.next() {
            Some(value) => {
                *iter = Some(it);
                Some(value)
            },
            None => {
                it.requeue(queue);
                None
            },
        },
    }
}

/// Converts the error of a waiting dequeuing, which never ends empty.
pub fn dequeue_err(error: TryDequeueError) -> (r: DequeueError)
    requires
        error == TryDequeueError::Closed || error == TryDequeueError::Conflict,
    ensures
        error == TryDequeueError::Closed ==> r == DequeueError::Closed,
        error == TryDequeueError::Conflict ==> r == DequeueError::Conflict,
{
    match error {
        TryDequeueError::Closed => DequeueError::Closed,
        TryDequeueError::Conflict => DequeueError::Conflict,
        _ => vstd::pervasive::unreached(),
    }
}

} // verus!

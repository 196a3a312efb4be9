//! Core of the unbounded channel: values not fitting in the queue wait in an overflow, inserted
//! into the queue when it is dequeued.
use vstd::prelude::*;

use crate::buffer::{BufferSlice, ValueIter, VecBuffer};
use crate::error::{TryDequeueError, TryEnqueueError};
use crate::mpsc::error::{try_send_error, try_send_iter_error, SendError};
use crate::notify::Notify;
use crate::queue::{
    all_items, dequeue_and_resize_pre, dequeue_and_resize_swaps, enqueue_post, lemma_all_fit,
    lemma_all_items_len, swap_notifications, total_size, valid_capacity, Notification, Queue,
    QueueView,
};

verus! {

/// The values of an unbounded channel, in the order they will be received: first those of its
/// queue, then those waiting in its overflow.
pub open spec fn channel_contents<T>(queue: QueueView<T>, overflow: Seq<T>) -> Seq<T> {
    queue.contents() + overflow
}

/// Values only wait in the overflow while the queue is full, so that a value sent later cannot
/// be enqueued before them.
pub open spec fn unbounded_ordered<T>(queue: QueueView<T>, overflow: Seq<T>) -> bool {
    overflow.len() > 0 ==> queue.enqueued.len() >= queue.capacity
}

/// Values sent to an unbounded channel while its queue was full.
#[derive(Debug)]
pub struct Overflow<T> {
    items: Vec<ValueIter<T>>,
    /// Number of values.
    len: usize,
}

impl<T> View for Overflow<T> {
    type V = Seq<T>;

    closed spec fn view(&self) -> Seq<T> {
        all_items::<VecBuffer<T>, ValueIter<T>>(self.items@)
    }
}

impl<T> Overflow<T> {
    /// Internal consistency: the number of values is up to date.
    pub closed spec fn wf(&self) -> bool {
        self.len == total_size::<VecBuffer<T>, ValueIter<T>>(self.items@)
    }

    /// Groups of values, in sending order.
    pub closed spec fn groups(&self) -> Seq<ValueIter<T>> {
        self.items@
    }

    /// Creates an empty overflow.
    pub fn new() -> (r: Self)
        ensures
            r.wf(),
            r@ == Seq::<T>::empty(),
    {
        Overflow { items: Vec::new(), len: 0 }
    }

    /// Returns the number of values.
    pub fn len(&self) -> (r: usize)
        requires
            self.wf(),
        ensures
            r == self@.len(),
    {
        proof {
            lemma_all_items_len::<VecBuffer<T>, ValueIter<T>>(self.items@);
        }
        self.len
    }

    fn push(&mut self, values: ValueIter<T>)
        requires
            old(self).wf(),
            old(self)@.len() + values.0.len() <= usize::MAX,
        ensures
            final(self).wf(),
            final(self)@ == old(self)@ + values.0@,
    {
        proof {
            lemma_all_items_len::<VecBuffer<T>, ValueIter<T>>(self.items@);
        }
        let ghost before = self.items@;
        self.len = self.len + values.0.len();
        self.items.push(values);
        proof {
            assert(self.items@.drop_last() =~= before);
        }
    }
}

/// Sends a value to an unbounded channel: the value is enqueued if the queue has room, else it
/// waits in the overflow, and the receiver is notified.
pub fn unbounded_send<N: Notify, T>(queue: &mut Queue<VecBuffer<T>, N>, overflow: &mut Overflow<T>, value: T)
    -> (r: Result<(), SendError<T>>)
    requires
        old(queue).wf(),
        old(overflow).wf(),
        old(overflow)@.len() < usize::MAX,
    ensures
        final(queue).wf(),
        final(overflow).wf(),
        final(queue).spec_notify() == old(queue).spec_notify(),
        final(queue).notifications() == if old(queue)@.closed {
            old(queue).notifications()
        } else {
            old(queue).notifications().push(Notification::Dequeue)
        },
        // sending keeps the values in sending order
        unbounded_ordered(old(queue)@, old(overflow)@) ==> unbounded_ordered(final(queue)@, final(overflow)@),
        unbounded_ordered(old(queue)@, old(overflow)@) && !old(queue)@.closed ==> channel_contents(
            final(queue)@,
            final(overflow)@,
        ) == channel_contents(old(queue)@, old(overflow)@).push(value),
        ({
            let before = old(queue)@;
            if before.closed {
                &&& r == Err::<(), SendError<T>>(SendError::Closed(value))
                &&& final(queue)@ == before
                &&& final(overflow)@ == old(overflow)@
            } else if before.enqueued.len() < before.capacity {
                &&& r is Ok
                &&& final(queue)@ == before.with_enqueued(before.enqueued.push(value))
                &&& final(overflow)@ == old(overflow)@
            } else {
                &&& r is Ok
                &&& final(queue)@ == before
                &&& final(overflow)@ == old(overflow)@.push(value)
            }
        }),
{
    match queue.try_enqueue(value) {
        Err(TryEnqueueError::InsufficientCapacity(v)) => {
            let ghost values = seq![v];
            let group = ValueIter(vec![v]);
            assert(group.0@ =~= values);
            overflow.push(group);
            queue.notify_dequeue();
            Ok(())
        },
        Err(error) => Err(try_send_error(error)),
        Ok(()) => Ok(()),
    }
}

/// Sends values to an unbounded channel, all together: they are enqueued if the queue has room,
/// else they wait in the overflow, and the receiver is notified.
pub fn unbounded_send_iter<N: Notify, T>(
    queue: &mut Queue<VecBuffer<T>, N>,
    overflow: &mut Overflow<T>,
    values: Vec<T>,
) -> (r: Result<(), SendError<Vec<T>>>)
    requires
        old(queue).wf(),
        old(overflow).wf(),
        old(overflow)@.len() + values@.len() <= usize::MAX,
    ensures
        final(queue).wf(),
        final(overflow).wf(),
        final(queue).spec_notify() == old(queue).spec_notify(),
        final(queue).notifications() == if values@.len() == 0 || old(queue)@.closed {
            old(queue).notifications()
        } else {
            old(queue).notifications().push(Notification::Dequeue)
        },
        // the values are appended in order; a group overflowing a queue that is not full lets a
        // later value be enqueued before it
        unbounded_ordered(old(queue)@, old(overflow)@) && !old(queue)@.closed ==> channel_contents(
            final(queue)@,
            final(overflow)@,
        ) == channel_contents(old(queue)@, old(overflow)@) + values@,
        unbounded_ordered(old(queue)@, old(overflow)@) && (old(overflow)@.len() > 0
            || old(queue)@.enqueued.len() + values@.len() <= old(queue)@.capacity)
            ==> unbounded_ordered(final(queue)@, final(overflow)@),
        ({
            let before = old(queue)@;
            if values@.len() == 0 {
                &&& r is Ok
                &&& final(queue)@ == before
                &&& final(overflow)@ == old(overflow)@
            } else if before.closed {
                &&& r == Err::<(), SendError<Vec<T>>>(SendError::Closed(values))
                &&& final(queue)@ == before
                &&& final(overflow)@ == old(overflow)@
            } else if before.enqueued.len() + values@.len() <= before.capacity {
                &&& r is Ok
                &&& final(queue)@ == before.with_enqueued(before.enqueued + values@)
                &&& final(overflow)@ == old(overflow)@
            } else {
                &&& r is Ok
                &&& final(queue)@ == before
                &&& final(overflow)@ == old(overflow)@ + values@
            }
        }),
{
    match queue.try_enqueue(ValueIter(values)) {
        Err(TryEnqueueError::InsufficientCapacity(group)) => {
            overflow.push(group);
            queue.notify_dequeue();
            Ok(())
        },
        Err(error) => Err(try_send_iter_error(error)),
        Ok(()) => Ok(()),
    }
}

/// Dequeues the channel's queue, inserting the overflow in the next enqueuing buffer, which is
/// resized to hold it.
pub fn try_dequeue_and_resize_overflow<N: Notify, T>(queue: &mut Queue<VecBuffer<T>, N>, overflow: &mut Overflow<T>)
    -> (r: Result<BufferSlice<VecBuffer<T>>, TryDequeueError>)
    requires
        old(queue).wf(),
        old(overflow).wf(),
        old(queue)@.capacity + old(overflow)@.len() <= usize::MAX,
        ({
            let before = old(queue)@;
            let capacity = before.capacity + old(overflow)@.len();
            !before.held && before.pending.len() == 0 && capacity != before.next_capacity
                ==> valid_capacity(capacity)
        }),
    ensures
        final(queue).wf(),
        final(overflow).wf(),
        final(queue).spec_notify() == old(queue).spec_notify(),
        final(queue).notifications() == old(queue).notifications() + swap_notifications(
            dequeue_and_resize_swaps::<VecBuffer<T>, ValueIter<T>>(
                old(queue)@,
                Some((old(queue)@.capacity + old(overflow)@.len()) as usize),
                old(overflow).groups(),
            ),
        ),
        final(overflow)@ == all_items::<VecBuffer<T>, ValueIter<T>>(final(overflow).groups()),
        !old(queue)@.held && old(queue)@.pending.len() == 0 ==> final(overflow)@.len() == 0,
        unbounded_ordered(old(queue)@, old(overflow)@) ==> unbounded_ordered(final(queue)@, final(overflow)@),
        // the values come out in order: first those of the queue, then those of the overflow
        match r {
            Ok(slice) => slice.items() + final(queue)@.contents() + final(overflow)@
                == old(queue)@.contents() + old(overflow)@,
            Err(_) => final(queue)@.contents() + final(overflow)@ == old(queue)@.contents() + old(overflow)@,
        },
        ({
            let before = old(queue)@;
            let capacity = (before.capacity + old(overflow)@.len()) as usize;
            &&& final(queue).dequeue_and_resize_post::<ValueIter<T>>(
                before,
                Some(capacity),
                old(overflow).groups(),
                r,
                final(overflow).groups(),
            )
            &&& all_items::<VecBuffer<T>, ValueIter<T>>(old(overflow).groups()) == old(overflow)@
            &&& total_size::<VecBuffer<T>, ValueIter<T>>(old(overflow).groups()) <= capacity
        }),
{
    proof {
        lemma_all_items_len::<VecBuffer<T>, ValueIter<T>>(overflow.items@);
    }
    let capacity = queue.capacity() + overflow.len;
    proof {
        lemma_all_fit::<VecBuffer<T>, ValueIter<T>>(overflow.items@, capacity as nat);
    }
    let r = queue.try_dequeue_and_resize(Some(capacity), &mut overflow.items);
    if overflow.items.len() == 0 {
        overflow.len = 0;
    }
    r
}

/// Giving a dequeued buffer back, closing or reopening the queue keep the values of an unbounded
/// channel in sending order: the enqueued values and the capacity stay the same.
pub proof fn law_give_back_keeps_order<T>(queue: QueueView<T>, overflow: Seq<T>, pending: Seq<T>, capacity: nat)
    requires
        unbounded_ordered(queue, overflow),
    ensures
        unbounded_ordered(queue.released(capacity), overflow),
        unbounded_ordered(queue.requeued(pending, capacity), overflow),
        unbounded_ordered(QueueView { closed: true, ..queue }, overflow),
        unbounded_ordered(QueueView { closed: false, ..queue }, overflow),
{
}

} // verus!

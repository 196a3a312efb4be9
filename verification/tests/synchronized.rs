use swap_buffer_queue::buffer::{ValueIter, VecBuffer};
use swap_buffer_queue::error::{DequeueError, TryDequeueError, TryEnqueueError};
use swap_buffer_queue::mpsc::error::{
    recv_err, try_recv_err, try_send_error, try_send_iter_error, RecvError, TryRecvError,
    TrySendError,
};
use swap_buffer_queue::mpsc::unbounded::{
    try_dequeue_and_resize_overflow, unbounded_send, unbounded_send_iter, Overflow,
};
use swap_buffer_queue::synchronized::{
    dequeue_err, iter_next, try_dequeue_or_wait, try_enqueue_or_wait, AtomicWaker, RegisterStart, WakerList,
};
use swap_buffer_queue::Queue;

#[test]
fn enqueue_waits_only_when_a_dequeue_makes_room() {
    let mut queue: Queue<VecBuffer<usize>> = Queue::with_capacity(2);
    assert!(matches!(try_enqueue_or_wait(&mut queue, 0), Ok(Ok(()))));
    assert!(matches!(try_enqueue_or_wait(&mut queue, ValueIter(vec![1])), Ok(Ok(()))));
    // full, but the value fits once the buffer is dequeued
    assert_eq!(try_enqueue_or_wait(&mut queue, 2).unwrap_err(), 2);
    // never fits
    match try_enqueue_or_wait(&mut queue, ValueIter(vec![3, 4, 5])) {
        Ok(Err(TryEnqueueError::InsufficientCapacity(v))) => assert_eq!(v.0, vec![3, 4, 5]),
        _ => panic!("oversized values do not wait"),
    }
    queue.close();
    assert!(matches!(try_enqueue_or_wait(&mut queue, 6), Ok(Err(TryEnqueueError::Closed(6)))));
}

#[test]
fn dequeue_waits_only_while_empty_and_open() {
    let mut queue: Queue<VecBuffer<usize>> = Queue::with_capacity(2);
    assert!(try_dequeue_or_wait(&mut queue).is_none());
    queue.try_enqueue(1).unwrap();
    let slice = try_dequeue_or_wait(&mut queue).unwrap().unwrap();
    assert_eq!(slice.as_slice(), &[1]);
    assert_eq!(
        try_dequeue_or_wait(&mut queue).unwrap().err().unwrap(),
        TryDequeueError::Conflict
    );
    slice.release(&mut queue);
    queue.close();
    assert_eq!(
        try_dequeue_or_wait(&mut queue).unwrap().err().unwrap(),
        TryDequeueError::Closed
    );
}

#[test]
fn dequeue_error_conversion() {
    assert_eq!(dequeue_err(TryDequeueError::Closed), DequeueError::Closed);
    assert_eq!(dequeue_err(TryDequeueError::Conflict), DequeueError::Conflict);
}

#[test]
fn waker_list_wakes_every_registered_waker_once() {
    let mut list = WakerList::new();
    assert!(list.wake().is_empty());
    list.register(1);
    list.register(2);
    assert_eq!(list.wake(), vec![1, 2]);
    assert!(list.wake().is_empty());
    list.register(3);
    assert_eq!(list.wake(), vec![3]);
}

#[test]
fn atomic_waker_registration_then_wake() {
    let mut slot = AtomicWaker::new();
    assert_eq!(slot.register_start(), RegisterStart::Registering);
    slot.register_store(1, false);
    assert_eq!(slot.register_finish(), None);
    assert!(slot.wake_start());
    assert_eq!(slot.wake_take(), Some(1));
    // nothing registered anymore
    assert!(slot.wake_start());
    assert_eq!(slot.wake_take(), None);
}

#[test]
fn atomic_waker_wake_during_registration() {
    let mut slot = AtomicWaker::new();
    assert_eq!(slot.register_start(), RegisterStart::Registering);
    // a concurrent registration does nothing
    assert_eq!(slot.register_start(), RegisterStart::Busy);
    // a wake during the registration does not own the slot
    assert!(!slot.wake_start());
    slot.register_store(7, false);
    // the registration wakes its own waker
    assert_eq!(slot.register_finish(), Some(7));
    assert_eq!(slot.current_waker(), &None);
}

#[test]
fn atomic_waker_registration_during_wake() {
    let mut slot = AtomicWaker::new();
    slot.register_start();
    slot.register_store(1, false);
    slot.register_finish();
    assert!(slot.wake_start());
    // registering during a wake wakes right away
    assert_eq!(slot.register_start(), RegisterStart::WakeNow);
    assert!(!slot.wake_start());
    assert_eq!(slot.wake_take(), Some(1));
    // the same waker is kept when it wakes the same operation
    slot.register_start();
    slot.register_store(2, false);
    slot.register_finish();
    slot.register_start();
    slot.register_store(3, true);
    slot.register_finish();
    assert_eq!(slot.current_waker(), &Some(2));
}

#[test]
fn send_errors() {
    assert_eq!(
        try_send_error(TryEnqueueError::InsufficientCapacity(1)),
        TrySendError::InsufficientCapacity(1)
    );
    assert_eq!(try_send_error(TryEnqueueError::Closed(2)), TrySendError::Closed(2));
    assert_eq!(
        try_send_iter_error(TryEnqueueError::Closed(ValueIter(vec![3, 4]))),
        TrySendError::Closed(vec![3, 4])
    );
    assert_eq!(
        try_send_iter_error(TryEnqueueError::InsufficientCapacity(ValueIter(vec![5]))),
        TrySendError::InsufficientCapacity(vec![5])
    );
    assert_eq!(TrySendError::Closed(5).into_inner(), 5);
    assert_eq!(TrySendError::InsufficientCapacity(6).into_inner(), 6);
    assert_eq!(TrySendError::InsufficientCapacity(()).description(), "channel is full");
    assert_eq!(TrySendError::Closed(()).description(), "channel is closed");
}

#[test]
fn recv_errors() {
    assert_eq!(try_recv_err(TryDequeueError::Empty), TryRecvError::Empty);
    assert_eq!(try_recv_err(TryDequeueError::Pending), TryRecvError::Pending);
    assert_eq!(try_recv_err(TryDequeueError::Closed), TryRecvError::Closed);
    assert_eq!(recv_err(DequeueError::Closed), RecvError);
    assert_eq!(TryRecvError::Empty.description(), "channel is empty");
    assert_eq!(
        TryRecvError::Pending.description(),
        "waiting for concurrent sending end"
    );
    assert_eq!(TryRecvError::Closed.description(), "channel is closed");
    assert_eq!(RecvError.description(), "channel is closed");
}

#[test]
fn unbounded_channel_never_full() {
    // the queue starts with no capacity: everything overflows
    let mut queue: Queue<VecBuffer<usize>> = Queue::new();
    let mut overflow = Overflow::new();
    assert_eq!(queue.capacity(), 0);
    unbounded_send(&mut queue, &mut overflow, 0).unwrap();
    assert_eq!(overflow.len(), 1);
    let slice = try_dequeue_and_resize_overflow(&mut queue, &mut overflow).unwrap();
    assert_eq!(slice.as_slice(), &[0]);
    assert_eq!(overflow.len(), 0);
    slice.release(&mut queue);
    unbounded_send(&mut queue, &mut overflow, 1).unwrap();
    unbounded_send_iter(&mut queue, &mut overflow, vec![2, 3]).unwrap();
    assert_eq!(overflow.len(), 3);
    let slice = try_dequeue_and_resize_overflow(&mut queue, &mut overflow).unwrap();
    assert_eq!(slice.as_slice(), &[1, 2, 3]);
    slice.release(&mut queue);
    queue.close();
    assert_eq!(
        unbounded_send(&mut queue, &mut overflow, 5),
        Err(TrySendError::Closed(5))
    );
    assert_eq!(
        unbounded_send_iter(&mut queue, &mut overflow, vec![6]),
        Err(TrySendError::Closed(vec![6]))
    );
    assert!(unbounded_send_iter(&mut queue, &mut overflow, Vec::new()).is_ok());
}

#[test]
fn unbounded_send_uses_the_queue_when_it_has_room() {
    let mut queue: Queue<VecBuffer<usize>> = Queue::with_capacity(2);
    let mut overflow = Overflow::new();
    unbounded_send(&mut queue, &mut overflow, 0).unwrap();
    unbounded_send_iter(&mut queue, &mut overflow, vec![1, 2]).unwrap();
    assert_eq!(queue.len(), 1);
    assert_eq!(overflow.len(), 2);
    // the queue is dequeued, the overflow goes to the next buffer, resized to 2 + 2
    let slice = try_dequeue_and_resize_overflow(&mut queue, &mut overflow).unwrap();
    assert_eq!(slice.as_slice(), &[0]);
    slice.release(&mut queue);
    assert_eq!(queue.capacity(), 4);
    assert_eq!(queue.len(), 2);
    unbounded_send(&mut queue, &mut overflow, 3).unwrap();
    let slice = queue.try_dequeue().unwrap();
    assert_eq!(slice.as_slice(), &[1, 2, 3]);
}

/// Two notifiers each increment a counter and wake the registered consumer; the consumer
/// registers, then checks the counter. Played here in one interleaving: the first wake finds the
/// slot idle, the second one arrives during the consumer's second registration.
#[test]
fn basic_notification() {
    const NUM_NOTIFY: usize = 2;
    let mut num = 0;
    let mut task = AtomicWaker::default();
    let mut woken = 0;
    // first poll: register, counter not reached
    assert_eq!(task.register_start(), RegisterStart::Registering);
    task.register_store("consumer", false);
    assert_eq!(task.register_finish(), None);
    assert_ne!(num, NUM_NOTIFY);
    // first notifier
    num += 1;
    assert!(task.wake_start());
    if task.wake_take().is_some() {
        woken += 1;
    }
    assert_eq!(woken, 1);
    // second poll, raced by the second notifier
    assert_eq!(task.register_start(), RegisterStart::Registering);
    num += 1;
    assert!(!task.wake_start());
    task.register_store("consumer", false);
    if task.register_finish().is_some() {
        woken += 1;
    }
    assert_eq!(woken, 2);
    // third poll: ready
    assert_eq!(num, NUM_NOTIFY);
}

#[test]
fn composed_registration_and_wake() {
    let mut slot = AtomicWaker::new();
    assert_eq!(slot.register(1, false), None);
    // the same operation registering again keeps the registered waker
    assert_eq!(slot.register(2, true), None);
    assert_eq!(slot.current_waker(), &Some(1));
    assert_eq!(slot.wake(), Some(1));
    assert_eq!(slot.wake(), None);
    // a registration during a wake is woken right away
    assert!(slot.wake_start());
    assert_eq!(slot.register(3, false), Some(3));
    assert_eq!(slot.wake_take(), None);
    // a wake during a registration is delivered when it finishes
    assert_eq!(slot.register_start(), RegisterStart::Registering);
    assert_eq!(slot.wake(), None);
    assert_eq!(slot.register(4, false), None);
    slot.register_store(5, false);
    assert_eq!(slot.register_finish(), Some(5));
}

#[test]
fn iteration_steps_release_the_exhausted_buffer() {
    let mut queue: Queue<VecBuffer<usize>> = Queue::with_capacity(2);
    let mut iter = None;
    assert_eq!(iter_next(&mut queue, &mut iter), None);
    queue.try_enqueue(ValueIter(vec![1, 2])).unwrap();
    iter = Some(queue.try_dequeue().unwrap().into_iter());
    assert_eq!(iter_next(&mut queue, &mut iter), Some(1));
    assert_eq!(iter_next(&mut queue, &mut iter), Some(2));
    assert_eq!(iter_next(&mut queue, &mut iter), None);
    assert!(iter.is_none());
    // the buffer has been released: the queue can be dequeued again
    assert_eq!(queue.try_dequeue().err().unwrap(), TryDequeueError::Empty);
}

#[test]
fn overflow_values_come_after_the_queue_ones() {
    let mut queue: Queue<VecBuffer<usize>> = Queue::with_capacity(1);
    let mut overflow = Overflow::new();
    unbounded_send(&mut queue, &mut overflow, 0).unwrap();
    unbounded_send(&mut queue, &mut overflow, 1).unwrap();
    unbounded_send(&mut queue, &mut overflow, 2).unwrap();
    let slice = try_dequeue_and_resize_overflow(&mut queue, &mut overflow).unwrap();
    assert_eq!(slice.as_slice(), &[0]);
    assert_eq!(overflow.len(), 0);
    slice.release(&mut queue);
    let slice = queue.try_dequeue().unwrap();
    assert_eq!(slice.as_slice(), &[1, 2]);
}

#[test]
fn unbounded_values_are_received_in_sending_order() {
    let mut queue: Queue<VecBuffer<usize>> = Queue::with_capacity(2);
    let mut overflow = Overflow::new();
    let mut received = Vec::new();
    for value in 0..5 {
        unbounded_send(&mut queue, &mut overflow, value).unwrap();
    }
    let slice = try_dequeue_and_resize_overflow(&mut queue, &mut overflow).unwrap();
    received.extend_from_slice(slice.as_slice());
    slice.release(&mut queue);
    for value in 5..8 {
        unbounded_send(&mut queue, &mut overflow, value).unwrap();
    }
    while let Ok(slice) = try_dequeue_and_resize_overflow(&mut queue, &mut overflow) {
        received.extend_from_slice(slice.as_slice());
        slice.release(&mut queue);
    }
    assert_eq!(received, (0..8).collect::<Vec<_>>());
    assert_eq!(overflow.len(), 0);
}

use swap_buffer_queue::buffer::{ArrayBuffer, BufferIter, ValueIter, VecBuffer};
use swap_buffer_queue::error::{DequeueError, TryDequeueError, TryEnqueueError};
use swap_buffer_queue::Queue;

fn drain(iter: &mut BufferIter<VecBuffer<usize>>) -> Vec<usize> {
    let mut values = Vec::new();
    while let Some(v) = iter.next() {
        values.push(v);
    }
    values
}

#[test]
fn crate_example() {
    let mut queue: Queue<VecBuffer<usize>> = Queue::with_capacity(42);
    queue.try_enqueue(0).unwrap();
    // multiple values can be enqueued at the same time
    queue.try_enqueue(ValueIter(vec![1, 2])).unwrap();
    let mut values = vec![3, 4];
    queue.try_enqueue(ValueIter(values.drain(..).collect())).unwrap();
    let slice = queue.try_dequeue().unwrap();
    assert_eq!(slice.as_slice(), &[0, 1, 2, 3, 4]);
    let mut iter = slice.into_iter();
    assert_eq!(drain(&mut iter), vec![0, 1, 2, 3, 4]);
    iter.requeue(&mut queue);
    assert_eq!(queue.try_dequeue().err().unwrap(), TryDequeueError::Empty);
}

#[test]
fn slice_requeue() {
    let mut queue: Queue<VecBuffer<usize>> = Queue::with_capacity(42);
    queue.try_enqueue(0).unwrap();
    queue.try_enqueue(1).unwrap();
    let slice = queue.try_dequeue().unwrap();
    assert_eq!(slice.as_slice(), &[0, 1]);
    slice.requeue(&mut queue);
    let slice = queue.try_dequeue().unwrap();
    assert_eq!(slice.as_slice(), &[0, 1]);
}

#[test]
fn iter_requeued_when_not_exhausted() {
    let mut queue: Queue<VecBuffer<usize>> = Queue::with_capacity(42);
    queue.try_enqueue(0).unwrap();
    queue.try_enqueue(1).unwrap();
    let mut iter = queue.try_dequeue().unwrap().into_iter();
    assert_eq!(iter.next(), Some(0));
    iter.requeue(&mut queue);
    let mut iter = queue.try_dequeue().unwrap().into_iter();
    assert_eq!(iter.next(), Some(1));
    assert_eq!(iter.next(), None);
    iter.requeue(&mut queue);
}

#[test]
fn capacity_and_len() {
    let mut queue: Queue<VecBuffer<usize>> = Queue::with_capacity(42);
    assert_eq!(queue.capacity(), 42);
    assert_eq!(queue.len(), 0);
    assert!(queue.is_empty());
    queue.try_enqueue(0).unwrap();
    assert_eq!(queue.len(), 1);
    assert!(!queue.is_empty());
}

#[test]
fn close_and_reopen() {
    let mut queue: Queue<VecBuffer<usize>> = Queue::with_capacity(42);
    assert!(!queue.is_closed());
    queue.close();
    assert!(queue.is_closed());
    queue.reopen();
    assert!(!queue.is_closed());
    // reopening an open queue has no effect
    queue.reopen();
    assert!(!queue.is_closed());
}

#[test]
fn enqueue_errors_give_the_value_back() {
    let mut queue: Queue<VecBuffer<usize>> = Queue::with_capacity(1);
    queue.try_enqueue(0).unwrap();
    // queue is full
    assert_eq!(queue.try_enqueue(7), Err(TryEnqueueError::InsufficientCapacity(7)));
    // let's close the queue
    queue.close();
    assert_eq!(queue.try_enqueue(8), Err(TryEnqueueError::Closed(8)));
    assert_eq!(queue.try_enqueue(9).unwrap_err().into_inner(), 9);
}

#[test]
fn zero_sized_enqueue_is_a_noop() {
    let mut queue: Queue<VecBuffer<usize>> = Queue::with_capacity(1);
    queue.close();
    assert!(queue.try_enqueue(ValueIter(Vec::new())).is_ok());
    assert_eq!(queue.len(), 0);
}

#[test]
fn dequeue_conflict_and_closed() {
    let mut queue: Queue<VecBuffer<usize>> = Queue::with_capacity(42);
    queue.try_enqueue(0).unwrap();
    queue.try_enqueue(1).unwrap();
    let slice = queue.try_dequeue().unwrap();
    assert_eq!(slice.as_slice(), &[0, 1]);
    // dequeuing cannot be done while the slice is held
    assert_eq!(queue.try_dequeue().err().unwrap(), TryDequeueError::Conflict);
    slice.release(&mut queue);
    queue.try_enqueue(2).unwrap();
    queue.close();
    // queue can be dequeued while closed when not empty
    let slice = queue.try_dequeue().unwrap();
    assert_eq!(slice.as_slice(), &[2]);
    slice.release(&mut queue);
    assert_eq!(queue.try_dequeue().err().unwrap(), TryDequeueError::Closed);
}

#[test]
fn close_example() {
    let mut queue: Queue<VecBuffer<usize>> = Queue::with_capacity(42);
    queue.try_enqueue(0).unwrap();
    queue.close();
    assert!(queue.is_closed());
    assert_eq!(queue.try_enqueue(1), Err(TryEnqueueError::Closed(1)));
    let slice = queue.try_dequeue().unwrap();
    assert_eq!(slice.as_slice(), &[0]);
    slice.release(&mut queue);
    assert_eq!(queue.try_dequeue().err().unwrap(), TryDequeueError::Closed);
}

#[test]
fn dequeue_and_resize_example() {
    let mut queue: Queue<VecBuffer<usize>> = Queue::with_capacity(1);
    queue.try_enqueue(0).unwrap();
    assert_eq!(queue.try_enqueue(1), Err(TryEnqueueError::InsufficientCapacity(1)));
    // dequeue and resize, inserting elements before the buffer is available
    let mut insert = vec![42];
    let slice = queue.try_dequeue_and_resize(Some(3), &mut insert).unwrap();
    assert!(insert.is_empty());
    assert_eq!(slice.as_slice(), &[0]);
    slice.release(&mut queue);
    // capacity has been increased
    assert_eq!(queue.capacity(), 3);
    queue.try_enqueue(1).unwrap();
    queue.try_enqueue(2).unwrap();
    let slice = queue.try_dequeue().unwrap();
    assert_eq!(slice.as_slice(), &[42, 1, 2]);
}

#[test]
fn dequeue_and_resize_of_an_empty_queue() {
    let mut queue: Queue<VecBuffer<usize>> = Queue::new();
    assert_eq!(queue.capacity(), 0);
    // inserted values are dequeued right away when nothing was enqueued
    let mut insert = vec![ValueIter(vec![0, 1])];
    let slice = queue.try_dequeue_and_resize(Some(2), &mut insert).unwrap();
    assert_eq!(slice.as_slice(), &[0, 1]);
    slice.release(&mut queue);
    assert_eq!(queue.capacity(), 0);
    // resizing alone swaps the buffers
    let mut nothing: Vec<usize> = Vec::new();
    assert_eq!(
        queue.try_dequeue_and_resize(Some(5), &mut nothing).err().unwrap(),
        TryDequeueError::Empty
    );
    assert_eq!(queue.capacity(), 5);
}

#[test]
fn dequeue_and_resize_stops_at_an_oversized_value() {
    let mut queue: Queue<VecBuffer<usize>> = Queue::with_capacity(2);
    let mut insert = vec![ValueIter(vec![1]), ValueIter(vec![2, 3, 4]), ValueIter(vec![5])];
    let slice = queue.try_dequeue_and_resize(None, &mut insert).unwrap();
    assert!(insert.is_empty());
    assert_eq!(slice.as_slice(), &[1]);
}

#[test]
fn requeued_values_come_before_resizing() {
    let mut queue: Queue<VecBuffer<usize>> = Queue::with_capacity(2);
    queue.try_enqueue(0).unwrap();
    queue.try_enqueue(1).unwrap();
    let mut iter = queue.try_dequeue().unwrap().into_iter();
    assert_eq!(iter.next(), Some(0));
    iter.requeue(&mut queue);
    let mut insert = vec![9];
    let slice = queue.try_dequeue_and_resize(Some(4), &mut insert).unwrap();
    // the requeued value is dequeued, nothing is inserted
    assert_eq!(slice.as_slice(), &[1]);
    assert_eq!(insert, vec![9]);
    assert_eq!(queue.capacity(), 2);
}

#[test]
fn array_buffer_queue() {
    let mut queue: Queue<ArrayBuffer<usize, 2>> = Queue::new();
    assert_eq!(queue.capacity(), 2);
    queue.try_enqueue(0).unwrap();
    queue.try_enqueue(1).unwrap();
    assert_eq!(queue.try_enqueue(2), Err(TryEnqueueError::InsufficientCapacity(2)));
    let slice = queue.try_dequeue().unwrap();
    assert_eq!(slice.as_slice(), &[0, 1]);
    let mut iter = slice.into_iter();
    assert_eq!(iter.len(), 2);
    assert_eq!(iter.next(), Some(0));
    assert_eq!(iter.len(), 1);
    iter.requeue(&mut queue);
    queue.try_enqueue(2).unwrap();
    let slice = queue.try_dequeue().unwrap();
    assert_eq!(slice.as_slice(), &[1]);
    slice.release(&mut queue);
    let slice = queue.try_dequeue().unwrap();
    assert_eq!(slice.as_slice(), &[2]);
}

#[test]
fn error_messages() {
    assert_eq!(
        TryEnqueueError::InsufficientCapacity(()).description(),
        "queue has insufficient capacity"
    );
    assert_eq!(TryEnqueueError::Closed(()).description(), "queue is closed");
    assert_eq!(TryDequeueError::Empty.description(), "queue is empty");
    assert_eq!(
        TryDequeueError::Pending.description(),
        "waiting for concurrent enqueuing end"
    );
    assert_eq!(TryDequeueError::Closed.description(), "queue is closed");
    assert_eq!(
        TryDequeueError::Conflict.description(),
        "queue is concurrently dequeued"
    );
    assert_eq!(DequeueError::Closed.description(), "queue is closed");
    assert_eq!(
        DequeueError::Conflict.description(),
        "queue is concurrently dequeued"
    );
}

#[test]
fn dequeued_values_can_be_modified() {
    let mut queue: Queue<VecBuffer<usize>> = Queue::with_capacity(3);
    queue.try_enqueue(ValueIter(vec![1, 2, 3])).unwrap();
    let mut slice = queue.try_dequeue().unwrap();
    slice.as_mut_slice()[1] = 20;
    assert_eq!(slice.as_slice(), &[1, 20, 3]);
    slice.requeue(&mut queue);
    let slice = queue.try_dequeue().unwrap();
    assert_eq!(slice.as_slice(), &[1, 20, 3]);
    assert_eq!(slice.len(), 3);
}

#[derive(Default)]
struct CountingNotifier {
    dequeue: std::cell::Cell<usize>,
    enqueue: std::cell::Cell<usize>,
}

impl swap_buffer_queue::notify::Notify for CountingNotifier {
    fn notify_dequeue(&self) {
        self.dequeue.set(self.dequeue.get() + 1);
    }

    fn notify_enqueue(&self) {
        self.enqueue.set(self.enqueue.get() + 1);
    }
}

fn counts(queue: &Queue<VecBuffer<usize>, CountingNotifier>) -> (usize, usize) {
    (queue.notify().dequeue.get(), queue.notify().enqueue.get())
}

#[test]
fn notifications_of_enqueuing_dequeuing_and_closing() {
    let mut queue: Queue<VecBuffer<usize>, CountingNotifier> = Queue::with_capacity(2);
    // nothing to dequeue: nobody is notified
    assert_eq!(queue.try_dequeue().err().unwrap(), TryDequeueError::Empty);
    assert_eq!(counts(&queue), (0, 0));
    // a successful enqueuing notifies the dequeuing side once
    queue.try_enqueue(0).unwrap();
    assert_eq!(counts(&queue), (1, 0));
    // zero-sized and refused enqueuings notify nobody
    queue.try_enqueue(ValueIter(Vec::new())).unwrap();
    assert!(queue.try_enqueue(ValueIter(vec![1, 2])).is_err());
    assert_eq!(counts(&queue), (1, 0));
    // a swap notifies the enqueuing side once
    let slice = queue.try_dequeue().unwrap();
    assert_eq!(counts(&queue), (1, 1));
    // a refused dequeuing notifies nobody
    assert_eq!(queue.try_dequeue().err().unwrap(), TryDequeueError::Conflict);
    assert_eq!(counts(&queue), (1, 1));
    slice.release(&mut queue);
    // closing notifies both sides
    queue.close();
    assert_eq!(counts(&queue), (2, 2));
    assert!(matches!(queue.try_enqueue(3), Err(TryEnqueueError::Closed(3))));
    assert_eq!(counts(&queue), (2, 2));
}

#[test]
fn resizing_an_empty_queue_with_inserted_values_swaps_twice() {
    let mut queue: Queue<VecBuffer<usize>, CountingNotifier> = Queue::with_capacity(1);
    let mut insert = vec![ValueIter(vec![1, 2])];
    let slice = queue.try_dequeue_and_resize(Some(3), &mut insert).unwrap();
    assert_eq!(slice.as_slice(), &[1, 2]);
    assert!(insert.is_empty());
    assert_eq!(counts(&queue), (0, 2));
    // the enqueuing buffer is back to the other one
    assert_eq!(queue.capacity(), 1);
}

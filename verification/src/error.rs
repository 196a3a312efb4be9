//! Queue error types.
use vstd::prelude::*;

verus! {

/// Error returned by [`Queue::try_enqueue`](crate::Queue::try_enqueue).
///
/// The value whose enqueuing has failed is embedded within the error.
#[derive(Debug, Copy, Clone, PartialEq, Eq)]
pub enum TryEnqueueError<T> {
    /// The queue doesn't have sufficient capacity to enqueue the give value.
    InsufficientCapacity(T),
    /// The queue is closed.
    Closed(T),
}

impl<T> TryEnqueueError<T> {
    /// The value embedded in the error.
    pub open spec fn value(self) -> T {
        match self {
            TryEnqueueError::InsufficientCapacity(v) => v,
            TryEnqueueError::Closed(v) => v,
        }
    }

    /// Returns the value whose enqueuing has failed
    pub fn into_inner(self) -> (r: T)
        ensures
            r == self.value(),
    {
        match self {
            TryEnqueueError::InsufficientCapacity(v) => v,
            TryEnqueueError::Closed(v) => v,
        }
    }

    /// Returns the error message.
    pub fn description(&self) -> (r: &'static str)
        ensures
            self is InsufficientCapacity ==> r@ == "queue has insufficient capacity"@,
            self is Closed ==> r@ == "queue is closed"@,
    {
        match self {
            TryEnqueueError::InsufficientCapacity(_) => "queue has insufficient capacity",
            TryEnqueueError::Closed(_) => "queue is closed",
        }
    }
}

/// Error returned by blocking enqueuing, which only fails when the queue is closed.
pub type EnqueueError<T> = TryEnqueueError<T>;

/// Error returned by [`Queue::try_dequeue`](crate::Queue::try_dequeue).
#[derive(Debug, Copy, Clone, PartialEq, Eq, Structural)]
pub enum TryDequeueError {
    /// The queue is empty.
    Empty,
    /// There is a concurrent enqueuing that need to end before dequeuing.
    Pending,
    /// The queue is closed.
    Closed,
    /// The queue is concurrently dequeued.
    Conflict,
}

impl TryDequeueError {
    /// Returns the error message.
    pub fn description(&self) -> (r: &'static str)
        ensures
            *self == TryDequeueError::Empty ==> r@ == "queue is empty"@,
            *self == TryDequeueError::Pending ==> r@ == "waiting for concurrent enqueuing end"@,
            *self == TryDequeueError::Closed ==> r@ == "queue is closed"@,
            *self == TryDequeueError::Conflict ==> r@ == "queue is concurrently dequeued"@,
    {
        match self {
            TryDequeueError::Empty => "queue is empty",
            TryDequeueError::Pending => "waiting for concurrent enqueuing end",
            TryDequeueError::Closed => "queue is closed",
            TryDequeueError::Conflict => "queue is concurrently dequeued",
        }
    }
}

/// Error returned by blocking dequeuing, which only fails when the queue is closed or
/// concurrently dequeued.
#[derive(Debug, Copy, Clone, PartialEq, Eq, Structural)]
pub enum DequeueError {
    /// The queue is closed.
    Closed,
    /// The queue is concurrently dequeued.
    Conflict,
}

impl DequeueError {
    /// Returns the error message.
    pub fn description(&self) -> (r: &'static str)
        ensures
            *self == DequeueError::Closed ==> r@ == "queue is closed"@,
            *self == DequeueError::Conflict ==> r@ == "queue is concurrently dequeued"@,
    {
        match self {
            DequeueError::Closed => "queue is closed",
            DequeueError::Conflict => "queue is concurrently dequeued",
        }
    }
}

} // verus!

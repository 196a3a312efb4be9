//! Channel error types.
use vstd::prelude::*;

use crate::buffer::ValueIter;
use crate::error::{DequeueError, TryDequeueError, TryEnqueueError};

verus! {

/// Error returned when sending into a channel.
///
/// The value whose sending has failed is embedded within the error.
#[derive(Debug, Copy, Clone, PartialEq, Eq)]
pub enum TrySendError<T> {
    /// The channel is full.
    InsufficientCapacity(T),
    /// The channel is closed.
    Closed(T),
}

impl<T> TrySendError<T> {
    /// The value embedded in the error.
    pub open spec fn value(self) -> T {
        match self {
            TrySendError::InsufficientCapacity(v) => v,
            TrySendError::Closed(v) => v,
        }
    }

    /// Returns the value whose sending has failed.
    pub fn into_inner(self) -> (r: T)
        ensures
            r == self.value(),
    {
        match self {
            TrySendError::InsufficientCapacity(v) => v,
            TrySendError::Closed(v) => v,
        }
    }

    /// Returns the error message.
    pub fn description(&self) -> (r: &'static str)
        ensures
            self is InsufficientCapacity ==> r@ == "channel is full"@,
            self is Closed ==> r@ == "channel is closed"@,
    {
        match self {
            TrySendError::InsufficientCapacity(_) => "channel is full",
            TrySendError::Closed(_) => "channel is closed",
        }
    }
}

/// Error returned by blocking sending, which only fails when the channel is closed.
pub type SendError<T> = TrySendError<T>;

/// Error returned when trying to receive from a channel.
#[derive(Debug, Copy, Clone, PartialEq, Eq, Structural)]
pub enum TryRecvError {
    /// The channel is empty.
    Empty,
    /// A concurrent sending needs to end before receiving.
    Pending,
    /// The channel is closed.
    Closed,
}

impl TryRecvError {
    /// Returns the error message.
    pub fn description(&self) -> (r: &'static str)
        ensures
            *self == TryRecvError::Empty ==> r@ == "channel is empty"@,
            *self == TryRecvError::Pending ==> r@ == "waiting for concurrent sending end"@,
            *self == TryRecvError::Closed ==> r@ == "channel is closed"@,
    {
        match self {
            TryRecvError::Empty => "channel is empty",
            TryRecvError::Pending => "waiting for concurrent sending end",
            TryRecvError::Closed => "channel is closed",
        }
    }
}

/// Error returned by blocking receiving: the channel is closed.
#[derive(Debug, Copy, Clone, PartialEq, Eq, Structural)]
pub struct RecvError;

impl RecvError {
    /// Returns the error message.
    pub fn description(&self) -> (r: &'static str)
        ensures
            r@ == "channel is closed"@,
    {
        "channel is closed"
    }
}

/// Converts a queue enqueuing error into a channel sending error.
pub fn try_send_error<T>(error: TryEnqueueError<T>) -> (r: TrySendError<T>)
    ensures
        r == match error {
            TryEnqueueError::InsufficientCapacity(v) => TrySendError::InsufficientCapacity(v),
            TryEnqueueError::Closed(v) => TrySendError::Closed(v),
        },
{
    match error {
        TryEnqueueError::InsufficientCapacity(x) => TrySendError::InsufficientCapacity(x),
        TryEnqueueError::Closed(x) => TrySendError::Closed(x),
    }
}

/// Converts the enqueuing error of a group of values into a channel sending error holding the
/// values.
pub fn try_send_iter_error<T>(error: TryEnqueueError<ValueIter<T>>) -> (r: TrySendError<Vec<T>>)
    ensures
        r == match error {
            TryEnqueueError::InsufficientCapacity(v) => TrySendError::InsufficientCapacity(v.0),
            TryEnqueueError::Closed(v) => TrySendError::Closed(v.0),
        },
{
    match error {
        TryEnqueueError::InsufficientCapacity(x) => TrySendError::InsufficientCapacity(x.0),
        TryEnqueueError::Closed(x) => TrySendError::Closed(x.0),
    }
}

/// Converts a queue dequeuing error into a channel receiving error; a channel has a single
/// receiver, so its queue is never concurrently dequeued.
pub fn try_recv_err(error: TryDequeueError) -> (r: TryRecvError)
    requires
        error != TryDequeueError::Conflict,
    ensures
        error == TryDequeueError::Empty ==> r == TryRecvError::Empty,
        error == TryDequeueError::Pending ==> r == TryRecvError::Pending,
        error == TryDequeueError::Closed ==> r == TryRecvError::Closed,
{
    match error {
        TryDequeueError::Empty => TryRecvError::Empty,
        TryDequeueError::Pending => TryRecvError::Pending,
        TryDequeueError::Closed => TryRecvError::Closed,
        TryDequeueError::Conflict => vstd::pervasive::unreached(),
    }
}

/// Converts a blocking dequeuing error into a channel receiving error; a channel has a single
/// receiver, so the only error is its closing.
pub fn recv_err(error: DequeueError) -> (r: RecvError)
    requires
        error == DequeueError::Closed,
    ensures
        r == RecvError,
{
    RecvError
}

} // verus!

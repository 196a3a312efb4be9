//! # swap-buffer-queue
//! A buffering MPSC queue.
//!
//! This library is intended to be an alternative to traditional MPSC queues in the context of
//! a buffering consumer, by moving the buffering part directly into the queue.
//!
//! Internally, this queue uses 2 buffers: one being used for enqueuing while the other is
//! dequeued. Dequeuing swaps both buffers, so the dequeued buffer contains previously enqueued
//! values, and new enqueued ones go to the other (empty) buffer.
use vstd::prelude::*;

pub mod buffer;
pub mod error;
pub mod mpsc;
pub mod notify;
pub mod queue;
pub mod synchronized;
pub mod write;
pub mod write_vectored;

pub use queue::Queue;

verus! {

} // verus!

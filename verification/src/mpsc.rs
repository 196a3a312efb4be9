//! Channels built on a [`Queue`](crate::Queue): their error types and the core of the
//! unbounded channel; the channels themselves share the queue between threads.
pub mod error;
pub mod unbounded;

# swap-buffer-queue

A buffering MPSC queue, verified with Verus.

The queue uses two buffers: one is used for enqueuing while the other is dequeued. Dequeuing
swaps them, so the dequeued buffer holds all the values enqueued since the previous dequeuing,
in enqueuing order, and new values go to the other (empty) buffer.

## Layout

- `src/queue.rs`, `src/queue/state.rs`: the queue, its abstract state (`QueueView`), the
  bit-packed words of its enqueuing and dequeuing sides, the dequeued buffers (`BufferSlice`,
  `BufferIter`) and the laws of the queue.
- `src/buffer.rs`, `src/buffer/`: the `Buffer`, `BufferValue`, `Resize` and `Drain` traits,
  `VecBuffer` and `ArrayBuffer`.
- `src/write.rs`, `src/write/`: byte buffers framed by a header and a trailer.
- `src/write_vectored.rs`, `src/write_vectored/`: buffers of byte vectors dequeued as a slice of
  byte slices, framed by an optional header and trailer.
- `src/synchronized.rs`, `src/synchronized/`: decisions of waiting operations, the waker list
  and the waker slot protocol.
- `src/mpsc.rs`, `src/mpsc/`: channel errors and the overflow of the unbounded channel.
- `app/lib.rs`: the queue shared between threads behind a lock, blocking and asynchronous
  waiting, and the bounded and unbounded channels.

Every function of `src/` is verified: its contract is stated over the abstract state of the
queue and of its buffers.
The notifications a queue sends to its notifier (`Notify::notify_dequeue` after an enqueuing,
`Notify::notify_enqueue` after a swap of the buffers, both on closing) are recorded in a ghost
log, `Queue::notifications`, over which the contracts state who is notified and how many times.
A queue has a ghost identity, carried by the buffers dequeued from it: a dequeued buffer can only
be given back to the queue it comes from.

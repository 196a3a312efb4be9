//! [`Buffer`] definition and simple implementations.
use vstd::prelude::*;

use std::ops::Range;

mod array;
mod vec;

pub use array::ArrayBuffer;
pub use vec::VecBuffer;
pub use crate::queue::{BufferIter, BufferSlice};

verus! {

/// [`Queue`](crate::queue::Queue) buffer. It is used together with [`BufferValue`].
///
/// A buffer holds a window of *live* items, inserted by [`BufferValue::insert_into`] one after
/// the other, starting at [`Buffer::start`]; [`Buffer::clear`] empties it.
pub trait Buffer: Sized {
    /// Items stored in the buffer.
    type Item;

    /// Internal consistency of the buffer.
    spec fn wf(&self) -> bool;

    /// Number of slots of the buffer.
    spec fn spec_capacity(&self) -> nat;

    /// Index of the first live item.
    spec fn start(&self) -> nat;

    /// Live items, from index [`Buffer::start`] on.
    spec fn items(&self) -> Seq<Self::Item>;

    /// Live items never exceed the buffer's slots.
    proof fn lemma_window(&self)
        requires
            self.wf(),
        ensures
            self.start() + self.items().len() <= self.spec_capacity(),
    ;

    /// Capacity of the buffer's default.
    spec fn default_capacity() -> nat;

    /// Whether the buffer's default can be allocated.
    spec fn default_fits() -> bool;

    /// Returns a new, empty buffer (the buffer's default).
    fn default_buffer() -> (r: Self)
        requires
            Self::default_fits(),
        ensures
            r.wf(),
            r.spec_capacity() == Self::default_capacity(),
            r.start() == 0,
            r.items() =~= Seq::<Self::Item>::empty(),
    ;

    /// Returns the buffer's capacity.
    fn capacity(&self) -> (r: usize)
        requires
            self.wf(),
        ensures
            r == self.spec_capacity(),
    ;

    /// Clears the live range of the buffer, so that new values can be inserted.
    fn clear(&mut self, range: Range<usize>)
        requires
            old(self).wf(),
            range.start == old(self).start(),
            range.end == old(self).start() + old(self).items().len(),
        ensures
            final(self).wf(),
            final(self).start() == 0,
            final(self).items() =~= Seq::<Self::Item>::empty(),
            final(self).spec_capacity() == old(self).spec_capacity(),
    ;
}

/// [`Buffer`] value.
pub trait BufferValue<B: Buffer>: Sized {
    /// Number of slots taken by the value in the buffer.
    spec fn spec_size(&self) -> nat;

    /// Items the value becomes once inserted.
    spec fn spec_items(&self) -> Seq<B::Item>;

    /// A value takes one slot per item.
    proof fn lemma_items_len(&self)
        ensures
            self.spec_items().len() == self.spec_size(),
    ;

    /// Returns the size taken by a value in the buffer.
    fn size(&self) -> (r: usize)
        ensures
            r == self.spec_size(),
    ;

    /// Inserts the value into the buffer at the given index, right after the live items.
    fn insert_into(self, buffer: &mut B, index: usize)
        requires
            old(buffer).wf(),
            index == old(buffer).start() + old(buffer).items().len(),
            0 < self.spec_size(),
            index + self.spec_size() <= old(buffer).spec_capacity(),
        ensures
            final(buffer).wf(),
            final(buffer).start() == old(buffer).start(),
            final(buffer).items() =~= old(buffer).items() + self.spec_items(),
            final(buffer).spec_capacity() == old(buffer).spec_capacity(),
    ;
}

/// Resizable [`Buffer`].
pub trait Resize: Buffer {
    /// Whether the buffer can be resized to `capacity`.
    spec fn can_resize(capacity: nat) -> bool;

    /// Resizes the buffer, dropping its live items.
    fn resize(&mut self, capacity: usize)
        requires
            old(self).wf(),
            Self::can_resize(capacity as nat),
        ensures
            final(self).wf(),
            final(self).spec_capacity() == capacity,
            final(self).start() == 0,
            final(self).items() =~= Seq::<Self::Item>::empty(),
    ;
}

/// [`Buffer`] whose values can be drained from.
pub trait Drain: Buffer {
    /// Removes the first live item, at the given index, and returns it with its size.
    fn remove(&mut self, index: usize) -> (r: (Self::Item, usize))
        requires
            old(self).wf(),
            old(self).items().len() > 0,
            index == old(self).start(),
        ensures
            final(self).wf(),
            r.0 == old(self).items()[0],
            r.1 == 1,
            final(self).start() == old(self).start() + 1,
            final(self).items() =~= old(self).items().drop_first(),
            final(self).spec_capacity() == old(self).spec_capacity(),
    ;
}

/// A group of values inserted at once, taking one reservation in the queue.
#[derive(Debug)]
pub struct ValueIter<T>(pub Vec<T>);

} // verus!

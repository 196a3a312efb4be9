//! [`Buffer`](crate::buffer::Buffer) implementations to be used with byte writers.
//!
//! [`WriteArrayBuffer`] and [`WriteVecBuffer`] are well suited when there are objects to be
//! serialized with a known-serialization size. Indeed, objects can then be serialized directly on
//! the queue's buffer, avoiding allocation.
use vstd::prelude::*;

mod array;
mod vec;

pub use array::WriteArrayBuffer;
pub use vec::WriteVecBuffer;

verus! {

/// A bytes slice with a `HEADER_SIZE`-bytes header and a `TRAILER_SIZE`-bytes trailer.
///
/// The *unframed* part of the slice lies between the header and the trailer. The complete slice
/// (with header and trailer) can be retrieved using [`frame`](BytesSlice::frame) or
/// [`frame_mut`](BytesSlice::frame_mut) methods.
pub struct BytesSlice<'a, const HEADER_SIZE: usize, const TRAILER_SIZE: usize>(pub &'a mut [u8]);

impl<'a, const HEADER_SIZE: usize, const TRAILER_SIZE: usize> BytesSlice<'a, HEADER_SIZE, TRAILER_SIZE> {
    /// The complete frame, with header and trailer.
    pub closed spec fn spec_frame(&self) -> Seq<u8> {
        self.0@
    }

    /// The frame holds the header and the trailer.
    pub open spec fn wf(&self) -> bool {
        HEADER_SIZE + TRAILER_SIZE <= self.spec_frame().len()
    }

    /// Wraps a complete frame.
    pub(crate) fn new(slice: &'a mut [u8]) -> (r: Self)
        ensures
            r.spec_frame() == old(slice)@,
            final(slice)@ == final(r.0)@,
    {
        BytesSlice(slice)
    }

    /// Returns a mutable reference on the header part of the slice.
    pub fn header(&mut self) -> (r: &mut [u8])
        requires
            HEADER_SIZE <= old(self).spec_frame().len(),
        ensures
            r@ == old(self).spec_frame().subrange(0, HEADER_SIZE as int),
            final(self).spec_frame() == final(r)@ + old(self).spec_frame().subrange(
                HEADER_SIZE as int,
                old(self).spec_frame().len() as int,
            ),
    {
        let (header, _) = self.0.split_at_mut(HEADER_SIZE);
        header
    }

    /// Returns a mutable reference on the trailer part of the slice.
    pub fn trailer(&mut self) -> (r: &mut [u8])
        requires
            TRAILER_SIZE <= old(self).spec_frame().len(),
        ensures
            r@ == old(self).spec_frame().subrange(
                old(self).spec_frame().len() - TRAILER_SIZE,
                old(self).spec_frame().len() as int,
            ),
            final(self).spec_frame() == old(self).spec_frame().subrange(
                0,
                old(self).spec_frame().len() - TRAILER_SIZE,
            ) + final(r)@,
    {
        let len = self.0.len();
        let (_, trailer) = self.0.split_at_mut(len - TRAILER_SIZE);
        trailer
    }

    /// Returns the complete frame slice, with header and trailer.
    pub fn frame(&self) -> (r: &[u8])
        ensures
            r@ == self.spec_frame(),
    {
        self.0
    }

    /// Returns the complete mutable frame slice, with header and trailer.
    pub fn frame_mut(&mut self) -> (r: &mut [u8])
        ensures
            r@ == old(self).spec_frame(),
            final(self).spec_frame() == final(r)@,
    {
        self.0
    }

    /// Returns the unframed part of the slice, without the header and the trailer.
    pub fn payload(&self) -> (r: &[u8])
        requires
            self.wf(),
        ensures
            r@ == self.spec_frame().subrange(
                HEADER_SIZE as int,
                self.spec_frame().len() - TRAILER_SIZE,
            ),
    {
        let len = self.0.len();
        let (_, rest) = self.0.split_at(HEADER_SIZE);
        let (payload, _) = rest.split_at(len - TRAILER_SIZE - HEADER_SIZE);
        payload
    }
}

/// Bytes slice writer, used by [`WriteArrayBuffer`] and [`WriteVecBuffer`].
pub trait WriteBytesSlice: Sized {
    /// Size of the slice to be written.
    spec fn spec_size(&self) -> nat;

    /// Bytes written in the slice.
    spec fn spec_bytes(&self) -> Seq<u8>;

    /// The written bytes fill the slice.
    proof fn lemma_bytes_len(&self)
        ensures
            self.spec_bytes().len() == self.spec_size(),
    ;

    /// Returns the size of the slice to be written.
    fn size(&self) -> (r: usize)
        ensures
            r == self.spec_size(),
    ;

    /// Writes the slice.
    fn write(self, slice: &mut [u8])
        requires
            old(slice)@.len() == self.spec_size(),
        ensures
            final(slice)@ == self.spec_bytes(),
    ;
}

impl WriteBytesSlice for Vec<u8> {
    open spec fn spec_size(&self) -> nat {
        self.len() as nat
    }

    open spec fn spec_bytes(&self) -> Seq<u8> {
        self@
    }

    proof fn lemma_bytes_len(&self) {
    }

    fn size(&self) -> (r: usize) {
        self.len()
    }

    fn write(self, slice: &mut [u8]) {
        let mut i: usize = 0;
        while i < self.len()
            invariant
                slice@.len() == self@.len(),
                i <= self@.len(),
                forall|j: int| 0 <= j < i ==> slice@[j] == self@[j],
            decreases self@.len() - i,
        {
            slice[i] = self[i];
            i = i + 1;
        }
        assert(slice@ =~= self@);
    }
}

/// Writing a byte vector fills the slice with exactly its bytes, in their order: the vector takes
/// as many bytes as it holds.
pub proof fn law_vec_writes_its_bytes(bytes: Vec<u8>, i: int)
    ensures
        WriteBytesSlice::spec_size(&bytes) == bytes.len(),
        WriteBytesSlice::spec_bytes(&bytes).len() == bytes.len(),
        0 <= i < bytes.len() ==> WriteBytesSlice::spec_bytes(&bytes)[i] == bytes[i],
{
}

} // verus!

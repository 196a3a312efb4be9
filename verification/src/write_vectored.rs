//! [`Buffer`](crate::buffer::Buffer) implementations to be used with vectored byte writers.
//!
//! [`WriteVectoredArrayBuffer`] and [`WriteVectoredVecBuffer`] allow buffering byte vectors
//! and dequeuing them as a slice of byte slices, saving the cost of dequeuing them one by one to
//! collect them after.
use vstd::prelude::*;

mod array;
mod vec;

pub use array::WriteVectoredArrayBuffer;
pub use vec::WriteVectoredVecBuffer;

verus! {

/// Bytes of each slice of `slices`.
pub open spec fn bytes_of(slices: Seq<&[u8]>) -> Seq<Seq<u8>> {
    Seq::new(slices.len(), |i: int| slices[i]@)
}

/// Total number of bytes of `values`.
pub open spec fn total_len(values: Seq<Seq<u8>>) -> nat
    decreases values.len(),
{
    if values.len() == 0 {
        0
    } else {
        total_len(values.drop_last()) + values.last().len()
    }
}

/// Returns the total number of bytes of `values`.
pub(crate) fn total_size(values: &Vec<Vec<u8>>) -> (r: usize)
    requires
        total_len(values@.map_values(|v: Vec<u8>| v@)) <= usize::MAX,
    ensures
        r == total_len(values@.map_values(|v: Vec<u8>| v@)),
{
    let ghost bytes = values@.map_values(|v: Vec<u8>| v@);
    let mut total: usize = 0;
    let mut i: usize = 0;
    while i < values.len()
        invariant
            i <= values@.len(),
            bytes == values@.map_values(|v: Vec<u8>| v@),
            total == total_len(bytes.take(i as int)),
            total_len(bytes) <= usize::MAX,
        decreases values@.len() - i,
    {
        proof {
            assert(bytes.take(i + 1).drop_last() =~= bytes.take(i as int));
            lemma_total_len_prefix(bytes, i + 1);
        }
        total = total + values[i].len();
        i = i + 1;
    }
    assert(bytes.take(i as int) =~= bytes);
    total
}

/// The total size of values put one after the other is the sum of their total sizes; so the
/// total size of a framed slice is that of its header, its values and its trailer.
pub proof fn law_total_len_concat(a: Seq<Seq<u8>>, b: Seq<Seq<u8>>)
    ensures
        total_len(a + b) == total_len(a) + total_len(b),
    decreases b.len(),
{
    if b.len() == 0 {
        assert(a + b =~= a);
    } else {
        law_total_len_concat(a, b.drop_last());
        assert((a + b).drop_last() =~= a + b.drop_last());
    }
}

proof fn lemma_total_len_prefix(values: Seq<Seq<u8>>, k: int)
    requires
        0 <= k <= values.len(),
    ensures
        total_len(values.take(k)) <= total_len(values),
    decreases values.len() - k,
{
    if k < values.len() {
        lemma_total_len_prefix(values, k + 1);
        assert(values.take(k + 1).drop_last() =~= values.take(k));
    } else {
        assert(values.take(k) =~= values);
    }
}

/// A bound of the range of values framed by [`VectoredSlice::frame`].
#[derive(Debug, Copy, Clone, PartialEq, Eq, Structural)]
pub enum FrameBound {
    /// The bound includes the given value index.
    Included(usize),
    /// The bound excludes the given value index.
    Excluded(usize),
    /// No bound.
    Unbounded,
}

/// Index of the first framed value for the start bound `bound`.
pub open spec fn start_index(bound: FrameBound) -> int {
    match bound {
        FrameBound::Included(n) => n as int,
        FrameBound::Excluded(n) => n + 1,
        FrameBound::Unbounded => 0,
    }
}

/// Index after the last framed value for the end bound `bound`, among `len` values.
pub open spec fn end_index(bound: FrameBound, len: nat) -> int {
    match bound {
        FrameBound::Included(n) => n + 1,
        FrameBound::Excluded(n) => n as int,
        FrameBound::Unbounded => len as int,
    }
}

/// A *vectored* slice, i.e. a slice of byte slices.
///
/// The total size of all the buffered slices can be retrieved with
/// [`total_size`](VectoredSlice::total_size) method. An header and a trailer can also be added
/// to the slice using [`frame`](VectoredSlice::frame) method.
pub struct VectoredSlice<'a> {
    /// An empty header slot, the values, and an empty trailer slot.
    slices: Vec<&'a [u8]>,
    total_size: usize,
}

/// A *framed* part of a [`VectoredSlice`], with a header and a trailer
/// (see [`VectoredSlice::frame`]).
pub struct VectoredFrame<'a> {
    slices: Vec<&'a [u8]>,
}

impl<'a> VectoredSlice<'a> {
    /// Bytes of the values.
    pub closed spec fn values(&self) -> Seq<Seq<u8>> {
        bytes_of(self.slices@).subrange(1, self.slices@.len() - 1)
    }

    /// Internal consistency of the slice.
    pub closed spec fn wf(&self) -> bool {
        &&& self.slices@.len() >= 2
        &&& self.total_size == total_len(self.values())
    }

    /// Builds the vectored slice of `values`, whose total size is `total_size`.
    pub(crate) fn new(values: &'a Vec<Vec<u8>>, total_size: usize) -> (r: Self)
        requires
            total_size == total_len(values@.map_values(|v: Vec<u8>| v@)),
        ensures
            r.wf(),
            r.values() == values@.map_values(|v: Vec<u8>| v@),
    {
        let mut slices: Vec<&'a [u8]> = Vec::new();
        let empty: &'a [u8] = &[];
        slices.push(empty);
        let mut i: usize = 0;
        while i < values.len()
            invariant
                i <= values@.len(),
                slices@.len() == i + 1,
                forall|j: int| 0 <= j < i ==> #[trigger] slices@[j + 1]@ == values@[j]@,
            decreases values@.len() - i,
        {
            slices.push(values[i].as_slice());
            i = i + 1;
        }
        slices.push(empty);
        let r = VectoredSlice { slices, total_size };
        assert(r.values() =~= values@.map_values(|v: Vec<u8>| v@));
        r
    }

    /// Returns the total size of all the buffered slices.
    pub fn total_size(&self) -> (r: usize)
        requires
            self.wf(),
        ensures
            r == total_len(self.values()),
    {
        self.total_size
    }

    /// Returns the buffered slices.
    pub fn slices(&self) -> (r: &[&'a [u8]])
        requires
            self.wf(),
        ensures
            bytes_of(r@) == self.values(),
    {
        let len = self.slices.len();
        let (_, rest) = self.slices.as_slice().split_at(1);
        let (values, _) = rest.split_at(len - 2);
        assert(bytes_of(values@) =~= self.values());
        values
    }

    /// Returns the *framed* part of the vectored slice within the given range of values, with an
    /// optional header slice and an optional trailer slice.
    pub fn frame<'b>(&self, start: FrameBound, end: FrameBound, header: Option<&'b [u8]>, trailer: Option<&'b [u8]>)
        -> (r: VectoredFrame<'b>) where 'a: 'b
        requires
            self.wf(),
            0 <= start_index(start) <= end_index(end, self.values().len()) <= self.values().len(),
        ensures
            r.slices() == (match header {
                Some(h) => seq![h@],
                None => Seq::empty(),
            }) + self.values().subrange(start_index(start), end_index(end, self.values().len()))
                + (match trailer {
                Some(t) => seq![t@],
                None => Seq::empty(),
            }),
    {
        let ghost values = self.values();
        let n_slots = self.slices.len();
        assert(values.len() == n_slots - 2);
        let ghost first_value = start_index(start);
        let ghost end_value = end_index(end, values.len());
        // Slot of the header, and end of the slot of the trailer.
        let start_slot = match start {
            FrameBound::Included(n) => n,
            FrameBound::Excluded(n) => n + 1,
            FrameBound::Unbounded => 0,
        };
        let end_slot = match end {
            FrameBound::Included(n) => n + 3,
            FrameBound::Excluded(n) => n + 2,
            FrameBound::Unbounded => n_slots,
        };
        assert(start_slot == first_value && end_slot == end_value + 2);
        let mut slices: Vec<&'b [u8]> = Vec::new();
        if let Some(header) = header {
            slices.push(header);
        }
        let ghost first = slices@.len() as int;
        let mut i = start_slot + 1;
        while i < end_slot - 1
            invariant
                self.wf(),
                values == self.values(),
                start_slot + 1 <= i <= end_slot - 1 <= self.slices@.len() - 1,
                slices@.len() == first + (i - start_slot - 1),
                first == (if header is Some { 1int } else { 0 }),
                header matches Some(h) ==> slices@[0]@ == h@,
                forall|j: int| start_slot + 1 <= j < i ==> #[trigger] slices@[first + j - start_slot - 1]@ == values[j - 1],
            decreases end_slot - 1 - i,
        {
            slices.push(self.slices[i]);
            i = i + 1;
        }
        if let Some(trailer) = trailer {
            slices.push(trailer);
        }
        let r = VectoredFrame { slices };
        proof {
            let hs: Seq<Seq<u8>> = match header {
                Some(h) => seq![h@],
                None => Seq::empty(),
            };
            let ts: Seq<Seq<u8>> = match trailer {
                Some(t) => seq![t@],
                None => Seq::empty(),
            };
            let mid = values.subrange(first_value, end_value);
            let expected = hs + mid + ts;
            assert(r.slices().len() == expected.len());
            assert forall|k: int| 0 <= k < expected.len() implies r.slices()[k] == expected[k] by {
                if k >= first && k < first + mid.len() {
                    let j = k - first + start_slot + 1;
                    assert(slices@[first + j - start_slot - 1]@ == values[j - 1]);
                }
            }
            assert(r.slices() =~= expected);
        }
        r
    }
}

impl<'a> VectoredFrame<'a> {
    /// Bytes of the framed slices.
    pub closed spec fn slices(&self) -> Seq<Seq<u8>> {
        bytes_of(self.slices@)
    }

    /// Returns the framed slices.
    pub fn as_slices(&self) -> (r: &[&'a [u8]])
        ensures
            bytes_of(r@) == self.slices(),
    {
        self.slices.as_slice()
    }
}

/// The total size of values is the sum of their lengths: no values have no size, a single value
/// has its own length, and the total is the sum, value after value, of their lengths.
pub proof fn law_total_len_is_sum(values: Seq<Seq<u8>>, value: Seq<u8>)
    ensures
        total_len(Seq::empty()) == 0,
        total_len(seq![value]) == value.len(),
        total_len(values) == values.fold_left(0nat, |total: nat, v: Seq<u8>| total + v.len()),
        forall|i: int| 0 <= i < values.len() ==> values[i].len() <= total_len(values),
    decreases values.len(),
{
    assert(seq![value].drop_last() =~= Seq::<Seq<u8>>::empty());
    if values.len() > 0 {
        law_total_len_is_sum(values.drop_last(), value);
        assert forall|i: int| 0 <= i < values.len() implies values[i].len() <= total_len(values) by {
            if i < values.len() - 1 {
                assert(values.drop_last()[i] == values[i]);
            }
        }
    }
}

} // verus!

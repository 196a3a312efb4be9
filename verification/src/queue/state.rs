//! Bit-packed words describing the enqueuing and dequeuing sides of the queue.
use vstd::prelude::*;

use crate::error::TryDequeueError;

verus! {

/// Highest bit of the enqueuing word, set when the queue is closed.
pub const CLOSED_FLAG: u64 = 0x8000_0000_0000_0000;

/// Value of the dequeuing word while a dequeued buffer is held.
pub const DEQUEUING_LOCKED: u64 = 0xffff_ffff_ffff_ffff;

/// Largest capacity a buffer may have (exclusive).
pub const MAX_CAPACITY: u64 = 0x3fff_ffff_ffff_fffe;

/// A capacity below `usize::MAX >> 2` fits in the enqueuing word.
pub proof fn lemma_capacity_bound(capacity: usize)
    requires
        capacity < usize::MAX >> 2,
    ensures
        capacity <= MAX_CAPACITY,
{
    let max = usize::MAX;
    assert(max as u64 == 0xffff_ffffu64 || max as u64 == 0xffff_ffff_ffff_ffffu64);
    assert(capacity < max >> 2 ==> capacity as u64 <= 0x3fff_ffff_ffff_fffeu64) by (bit_vector)
        requires
            max as u64 == 0xffff_ffffu64 || max as u64 == 0xffff_ffff_ffff_ffffu64,
    ;
}

/// The packed value `closed | remaining << 1 | index`.
pub open spec fn enqueuing_word(index: nat, remaining: nat, closed: bool) -> int {
    (if closed { CLOSED_FLAG as int } else { 0 }) + 2 * remaining + index
}

proof fn lemma_enqueuing_fields(w: u64)
    ensures
        w & 1 == w % 2,
        (w & !CLOSED_FLAG) >> 1 == (w % CLOSED_FLAG) / 2,
        (w & CLOSED_FLAG != 0) == (w >= CLOSED_FLAG),
{
    assert(w & 1 == w % 2) by (bit_vector);
    assert((w & !CLOSED_FLAG) >> 1 == (w % CLOSED_FLAG) / 2)
        by (bit_vector);
    assert((w & CLOSED_FLAG != 0) == (w >= CLOSED_FLAG))
        by (bit_vector);
}

proof fn lemma_pack(index: u64, capacity: u64)
    requires
        index < 2,
        capacity < 0x4000_0000_0000_0000u64,
    ensures
        capacity << 1 == 2 * capacity,
        index | (capacity << 1) == index + 2 * capacity,
{
    assert(capacity << 1 == 2 * capacity) by (bit_vector)
        requires capacity < 0x4000_0000_0000_0000u64;
    assert(index | (capacity << 1) == index + 2 * capacity) by (bit_vector)
        requires index < 2u64, capacity < 0x4000_0000_0000_0000u64;
}

proof fn lemma_set_flag(w: u64)
    ensures
        w | CLOSED_FLAG == (w % CLOSED_FLAG) + CLOSED_FLAG,
        w & !CLOSED_FLAG == w % CLOSED_FLAG,
        (w | CLOSED_FLAG) % 2 == w % 2,
        (w & !CLOSED_FLAG) % 2 == w % 2,
{
    assert((w | 0x8000_0000_0000_0000u64) % 2 == w % 2) by (bit_vector);
    assert((w & !0x8000_0000_0000_0000u64) % 2 == w % 2) by (bit_vector);
    assert(w | CLOSED_FLAG == (w % CLOSED_FLAG)
        + CLOSED_FLAG) by (bit_vector);
    assert(w & !CLOSED_FLAG == w % CLOSED_FLAG) by (bit_vector);
}

/// Enqueuing side of the queue, packed in one word:
/// the closed flag in the highest bit, the remaining enqueuing capacity in the middle bits, and
/// the index (0 or 1) of the enqueuing buffer in the lowest bit.
#[derive(Copy, Clone)]
pub struct EnqueuingCapacity(pub u64);

impl EnqueuingCapacity {
    /// Index of the enqueuing buffer.
    pub open spec fn index(self) -> nat {
        (self.0 % 2) as nat
    }

    /// Remaining enqueuing capacity.
    pub open spec fn remaining(self) -> nat {
        ((self.0 % CLOSED_FLAG) / 2) as nat
    }

    /// Whether the queue is closed.
    pub open spec fn closed(self) -> bool {
        self.0 >= CLOSED_FLAG
    }

    /// The word is made of its three fields.
    pub proof fn lemma_decompose(self)
        ensures
            self.0 == enqueuing_word(self.index(), self.remaining(), self.closed()),
            self.index() < 2,
            self.remaining() < CLOSED_FLAG / 2,
    {
    }

    pub fn new(buffer_index: u64, capacity: u64) -> (r: Self)
        requires
            buffer_index < 2,
            capacity <= MAX_CAPACITY,
        ensures
            r.0 == enqueuing_word(buffer_index as nat, capacity as nat, false),
            r.index() == buffer_index,
            r.remaining() == capacity,
            !r.closed(),
    {
        proof { lemma_pack(buffer_index, capacity); }
        Self(buffer_index | (capacity << 1))
    }

    pub fn buffer_index(self) -> (r: u64)
        ensures
            r == self.index(),
    {
        proof { lemma_enqueuing_fields(self.0); }
        self.0 & 1
    }

    pub fn remaining_capacity(self) -> (r: u64)
        ensures
            r == self.remaining(),
    {
        proof { lemma_enqueuing_fields(self.0); }
        (self.0 & !CLOSED_FLAG) >> 1
    }

    pub fn is_closed(self) -> (r: bool)
        ensures
            r == self.closed(),
    {
        proof { lemma_enqueuing_fields(self.0); }
        self.0 & CLOSED_FLAG != 0
    }

    /// Reserves `size` slots of the enqueuing capacity, if there are enough of them.
    pub fn try_reserve(self, size: u64) -> (r: Option<Self>)
        requires
            !self.closed(),
        ensures
            match r {
                Some(next) => {
                    &&& size <= self.remaining()
                    &&& next.remaining() == self.remaining() - size
                    &&& next.index() == self.index()
                    &&& !next.closed()
                },
                None => size > self.remaining(),
            },
    {
        if size > 0x7fff_ffff_ffff_ffffu64 {
            return None;
        }
        proof {
            assert(size << 1 == 2 * size) by (bit_vector)
                requires size <= 0x7fff_ffff_ffff_ffffu64;
        }
        match self.0.checked_sub(size << 1) {
            Some(w) => Some(Self(w)),
            None => None,
        }
    }

    /// Copies the closed flag of `enqueuing` into `self`.
    pub fn with_closed(self, enqueuing: Self) -> (r: Self)
        requires
            !self.closed(),
        ensures
            r.index() == self.index(),
            r.remaining() == self.remaining(),
            r.closed() == enqueuing.closed(),
    {
        proof {
            let a = self.0;
            let b = enqueuing.0;
            assert(a | (b & CLOSED_FLAG) == a + (if b >= CLOSED_FLAG {
                CLOSED_FLAG
            } else {
                0
            })) by (bit_vector)
                requires a < CLOSED_FLAG;
        }
        Self(self.0 | (enqueuing.0 & CLOSED_FLAG))
    }

    pub fn from_atomic(atomic: u64) -> (r: Self)
        ensures
            r.0 == atomic,
    {
        Self(atomic)
    }

    pub fn into_atomic(self) -> (r: u64)
        ensures
            r == self.0,
    {
        self.0
    }

    /// Sets the closed flag of the word.
    pub fn close(atomic: &mut u64)
        ensures
            Self(*final(atomic)).closed(),
            Self(*final(atomic)).index() == Self(*old(atomic)).index(),
            Self(*final(atomic)).remaining() == Self(*old(atomic)).remaining(),
    {
        proof { lemma_set_flag(*atomic); }
        *atomic = *atomic | CLOSED_FLAG;
    }

    /// Clears the closed flag of the word.
    pub fn reopen(atomic: &mut u64)
        ensures
            !Self(*final(atomic)).closed(),
            Self(*final(atomic)).index() == Self(*old(atomic)).index(),
            Self(*final(atomic)).remaining() == Self(*old(atomic)).remaining(),
    {
        proof { lemma_set_flag(*atomic); }
        *atomic = *atomic & !CLOSED_FLAG;
    }
}

/// Dequeuing side of the queue, packed in one word: the length still to be dequeued in the
/// upper bits and the index (0 or 1) of the dequeuing buffer in the lowest bit.
/// The word is [`DEQUEUING_LOCKED`] while a dequeued buffer is held.
#[derive(Copy, Clone)]
pub struct DequeuingLength(pub u64);

impl DequeuingLength {
    pub open spec fn index(self) -> nat {
        (self.0 % 2) as nat
    }

    pub open spec fn len(self) -> nat {
        (self.0 / 2) as nat
    }

    pub fn new(buffer_index: u64, length: u64) -> (r: Self)
        requires
            buffer_index < 2,
            length <= MAX_CAPACITY,
        ensures
            r.index() == buffer_index,
            r.len() == length,
            r.0 != DEQUEUING_LOCKED,
    {
        proof { lemma_pack(buffer_index, length); }
        Self(buffer_index | length << 1)
    }

    pub fn buffer_index(self) -> (r: u64)
        ensures
            r == self.index(),
    {
        proof { lemma_enqueuing_fields(self.0); }
        self.0 & 1
    }

    pub fn buffer_len(self) -> (r: u64)
        ensures
            r == self.len(),
    {
        proof {
            let w = self.0;
            assert(w >> 1 == w / 2) by (bit_vector);
        }
        self.0 >> 1
    }

    pub fn try_from_atomic(atomic: u64) -> (r: Result<Self, TryDequeueError>)
        ensures
            match r {
                Ok(d) => atomic != DEQUEUING_LOCKED && d.0 == atomic,
                Err(e) => atomic == DEQUEUING_LOCKED && e == TryDequeueError::Conflict,
            },
    {
        if atomic != DEQUEUING_LOCKED {
            Ok(Self(atomic))
        } else {
            Err(TryDequeueError::Conflict)
        }
    }

    pub fn into_atomic(self) -> (r: u64)
        ensures
            r == self.0,
    {
        self.0
    }
}

/// Packing the fields of the enqueuing side in a word and reading them back gives the same
/// fields, and a word is the packing of its own fields: packing is one to one.
pub proof fn law_enqueuing_word_roundtrip(index: nat, remaining: nat, closed: bool, e: EnqueuingCapacity)
    requires
        index < 2,
        remaining < CLOSED_FLAG / 2,
    ensures
        EnqueuingCapacity(enqueuing_word(index, remaining, closed) as u64).index() == index,
        EnqueuingCapacity(enqueuing_word(index, remaining, closed) as u64).remaining() == remaining,
        EnqueuingCapacity(enqueuing_word(index, remaining, closed) as u64).closed() == closed,
        e.0 == enqueuing_word(e.index(), e.remaining(), e.closed()),
{
    e.lemma_decompose();
    let w = enqueuing_word(index, remaining, closed);
    assert(0 <= w < 0x1_0000_0000_0000_0000);
    let low = 2 * remaining + index;
    assert(low < CLOSED_FLAG);
    assert(w % CLOSED_FLAG as int == low) by {
        if closed {
            vstd::arithmetic::div_mod::lemma_mod_add_multiples_vanish(low as int, CLOSED_FLAG as int);
        } else {
            vstd::arithmetic::div_mod::lemma_small_mod(low as nat, CLOSED_FLAG as nat);
        }
    }
}

} // verus!

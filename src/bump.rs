//! The per-process bump allocator: one cursor per size class, and the decisions
//! that turn a reservation into an address or into the growth of a segment.
use crate::address::{advanced_raw, decode_bits, ShmemId, SharedAddress};
use crate::cursor::AtomicSharedAddress;
use crate::size_class::{ObjectOffset, ObjectSize};
use std::sync::atomic::Ordering;
use vstd::arithmetic::power2::pow2;
use vstd::prelude::*;

verus! {

/// One cursor per possible exponent (the exponent is the index).
pub const NUM_CLASSES: usize = 64;

/// The largest offset an address can carry, plus one.
pub const OFFSET_LIMIT: u64 = 0x1_0000_0000;

/// What to do with a reservation made on a size class's cursor.
#[derive(Clone, Copy, Debug, PartialEq, Eq, Structural)]
pub enum Reservation {
    /// The reserved range lies inside its segment: hand out this address.
    Ready(SharedAddress),
    /// Create a segment of this many bytes and publish it.
    Grow(usize),
    /// The next segment would be larger than the address space.
    Exhausted,
}

/// The size of the next segment of a class: twice the previous segment's mapped
/// length, and at least the requested byte count (just that for a class's first
/// segment).
pub open spec fn grown_size(request: nat, previous: nat) -> nat {
    if request >= 2 * previous {
        request
    } else {
        2 * previous
    }
}

/// The decision after a reservation: `reserved` is what the cursor held and
/// `mapped_len` the mapped length of its segment, when it could be attached.
pub open spec fn decision(
    request: usize,
    reserved: Option<SharedAddress>,
    mapped_len: Option<usize>,
) -> Reservation {
    let previous: nat = match (reserved, mapped_len) {
        (Some(_), Some(m)) => m as nat,
        _ => 0,
    };
    match (reserved, mapped_len) {
        (Some(a), Some(m)) if a.end() <= m => Reservation::Ready(a),
        _ => if grown_size(request as nat, previous) <= usize::MAX {
            Reservation::Grow(grown_size(request as nat, previous) as usize)
        } else {
            Reservation::Exhausted
        },
    }
}

/// Decides what to do after reserving on a class's cursor.
pub fn decide(request: usize, reserved: Option<SharedAddress>, mapped_len: Option<usize>) -> (r:
    Reservation)
    ensures
        r == decision(request, reserved, mapped_len),
{
    let mut previous: usize = 0;
    if let Some(a) = reserved {
        if let Some(m) = mapped_len {
            match a.object_end() {
                Some(end) => {
                    if end <= m as u64 {
                        return Reservation::Ready(a);
                    }
                },
                None => {
                    proof {
                        let e = a.raw().object_size as nat;
                        vstd::arithmetic::power2::lemma2_to64();
                        if e > 64 {
                            vstd::arithmetic::power2::lemma_pow2_strictly_increases(64, e);
                        }
                    }
                },
            }
            previous = m;
        }
    }
    if previous > request / 2 {
        if previous > usize::MAX / 2 {
            Reservation::Exhausted
        } else {
            Reservation::Grow(previous * 2)
        }
    } else {
        Reservation::Grow(request)
    }
}

/// The first object of a fresh segment, at offset zero, and the cursor to
/// publish after it: one object further, or empty where that offset does not fit
/// in an address.
pub fn first_allocation(shmem_id: ShmemId, class: ObjectSize) -> (r: (
    SharedAddress,
    Option<SharedAddress>,
))
    ensures
        r.0.fields() == (shmem_id.0, class.exp(), 0u32),
        class.byte_count() < OFFSET_LIMIT ==> (r.1 matches Some(c) && c.fields() == (
            shmem_id.0,
            class.exp(),
            class.byte_count() as u32,
        )),
        class.byte_count() >= OFFSET_LIMIT ==> r.1 is None,
{
    let first = SharedAddress::new(shmem_id, class, ObjectOffset(0));
    let next = match class.as_offset() {
        Some(o) => Some(SharedAddress::new(shmem_id, class, o)),
        None => None,
    };
    proof {
        vstd::arithmetic::power2::lemma2_to64();
        if class.exp() >= 32 {
            if class.exp() > 32 {
                vstd::arithmetic::power2::lemma_pow2_strictly_increases(32, class.exp() as nat);
            }
        } else {
            vstd::arithmetic::power2::lemma_pow2_strictly_increases(class.exp() as nat, 32);
        }
    }
    (first, next)
}

/// The value a class's cursor holds right after a reservation that found
/// `reserved`: the same address advanced by the class's span. Publishing a fresh
/// segment compares against this value, since the reservation already moved the
/// cursor. Classes of 2^32 bytes and more never hold a cursor.
pub fn cursor_after(class: ObjectSize, reserved: Option<SharedAddress>) -> (r: Option<
    SharedAddress,
>)
    ensures
        reserved is None ==> r is None,
        class.exp() >= 32 ==> r == reserved,
        class.exp() < 32 ==> (reserved matches Some(a) ==> (r matches Some(c) && c.raw()
            == advanced_raw(a.raw(), class.byte_count() as u32) && c.bits() == a.bits().wrapping_add(
            (class.byte_count() as u64) << 32u64))),
{
    match (reserved, class.as_offset()) {
        (Some(a), Some(span)) => Some(a.advance(span)),
        _ => reserved,
    }
}

/// An offset aligned to a class's span stays aligned when advanced by the span
/// without wrapping, so the cursor hands out aligned offsets.
pub proof fn lemma_advance_keeps_alignment(o: nat, span: nat)
    requires
        span > 0,
        o % span == 0,
    ensures
        (o + span) % span == 0,
{
    vstd::arithmetic::div_mod::lemma_mod_adds(o as int, span as int, span as int);
    vstd::arithmetic::div_mod::lemma_mod_self_0(span as int);
}

/// Two objects of one class whose offsets are distinct multiples of the class's
/// span occupy disjoint byte ranges.
pub proof fn lemma_slots_disjoint(o1: nat, o2: nat, span: nat)
    requires
        span > 0,
        o1 % span == 0,
        o2 % span == 0,
        o1 != o2,
    ensures
        o1 + span <= o2 || o2 + span <= o1,
{
    let k1 = o1 / span;
    let k2 = o2 / span;
    assert(o1 == k1 * span) by (nonlinear_arith)
        requires
            o1 % span == 0,
            span > 0,
            k1 == o1 / span,
    ;
    assert(o2 == k2 * span) by (nonlinear_arith)
        requires
            o2 % span == 0,
            span > 0,
            k2 == o2 / span,
    ;
    if k1 < k2 {
        assert(k1 * span + span <= k2 * span) by (nonlinear_arith)
            requires
                k1 < k2,
                span > 0,
        ;
    } else {
        assert(k2 * span + span <= k1 * span) by (nonlinear_arith)
            requires
                k2 < k1,
                span > 0,
        ;
    }
}

/// Two distinct addresses in one segment and one class, at offsets aligned to the
/// class's span (as the bump allocator hands them out), name disjoint byte ranges.
pub proof fn lemma_allocations_disjoint(a: SharedAddress, b: SharedAddress)
    requires
        a.raw().shmem_id == b.raw().shmem_id,
        a.raw().object_size == b.raw().object_size,
        a.raw().object_offset as nat % pow2(a.raw().object_size as nat) == 0,
        b.raw().object_offset as nat % pow2(b.raw().object_size as nat) == 0,
        a.raw().object_offset != b.raw().object_offset,
    ensures
        a.end() <= b.raw().object_offset || b.end() <= a.raw().object_offset,
{
    vstd::arithmetic::power2::lemma_pow2_pos(a.raw().object_size as nat);
    lemma_slots_disjoint(
        a.raw().object_offset as nat,
        b.raw().object_offset as nat,
        pow2(a.raw().object_size as nat),
    );
}

/// The cursors of one process, one per size class.
pub struct BumpCursors {
    cursors: Vec<AtomicSharedAddress>,
}

impl BumpCursors {
    /// Each class has a cursor.
    pub closed spec fn wf(&self) -> bool {
        self.cursors@.len() == NUM_CLASSES
    }

    /// Empty cursors for every class: the first allocation of each creates a
    /// segment.
    pub fn new() -> (r: BumpCursors)
        ensures
            r.wf(),
    {
        let mut cursors: Vec<AtomicSharedAddress> = Vec::new();
        let mut i: usize = 0;
        while i < NUM_CLASSES
            invariant
                i <= NUM_CLASSES,
                cursors@.len() == i,
            decreases NUM_CLASSES - i,
        {
            cursors.push(AtomicSharedAddress::new(None));
            i = i + 1;
        }
        BumpCursors { cursors }
    }

    /// Reserves one object on the class's cursor: advances the cursor by the
    /// class's span and returns where it stood. `None` where the cursor is empty.
    pub fn reserve(&self, class: ObjectSize) -> (r: Option<SharedAddress>)
        requires
            self.wf(),
        ensures
            class.exp() >= 32 ==> r is None,
            exists|before: u64| r == decode_bits(before),
    {
        let index = class.exponent() as usize;
        match class.as_offset() {
            Some(span) => self.cursors[index].fetch_add(span, Ordering::SeqCst),
            None => {
                proof {
                    crate::address::lemma_decode_bits(0);
                    assert(crate::address::unpack(0).object_size == 0) by {
                        assert(((0u64 >> 16u64) & 0xffu64) == 0u64) by (bit_vector);
                    }
                    assert(decode_bits(0) is None);
                }
                None
            },
        }
    }

    /// Publishes a fresh segment as the class's cursor, if the cursor still holds
    /// `observed` (`cursor_after` of the reservation); returns the segment's first object then, and `None` where
    /// another thread moved the cursor first.
    pub fn publish(&self, class: ObjectSize, observed: Option<SharedAddress>, shmem_id: ShmemId) -> (r:
        Option<SharedAddress>)
        requires
            self.wf(),
        ensures
            r matches Some(a) ==> a.fields() == (shmem_id.0, class.exp(), 0u32),
    {
        let index = class.exponent() as usize;
        let (first, next) = first_allocation(shmem_id, class);
        match self.cursors[index].exchange(observed, next, Ordering::SeqCst) {
            Ok(()) => Some(first),
            Err(_) => None,
        }
    }
}

} // verus!

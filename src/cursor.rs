//! An atomic cell that holds an optional address, zero standing for "empty".
use crate::address::{decode_bits, SharedAddress};
use crate::size_class::ObjectOffset;
use std::sync::atomic::{AtomicU64, Ordering};
use vstd::prelude::*;

verus! {

/// The bits an optional address is stored as: its own, or zero for `None`.
pub open spec fn opt_bits(a: Option<SharedAddress>) -> u64 {
    match a {
        Some(a) => a.bits(),
        None => 0,
    }
}

/// The bits of an optional address.
pub fn to_opt_bits(a: Option<SharedAddress>) -> (r: u64)
    ensures
        r == opt_bits(a),
{
    match a {
        Some(a) => a.to_bits(),
        None => 0,
    }
}

/// The amount an atomic add puts on a handle's bits to advance its offset by
/// `offset`: the offset shifted into bits 32..64, so that segment, class and
/// padding stay as they are (see `address::lemma_offset_add`).
pub fn offset_delta(offset: ObjectOffset) -> (r: u64)
    ensures
        r == (offset.0 as u64) << 32u64,
{
    offset.as_u64() << 32u64
}

/// What a reservation found, from the bits the cell held before the add: the
/// address they decode to, and whether the add must be undone because they held
/// none (an empty cell stays empty).
pub fn decode_reserved(bits: u64) -> (r: (Option<SharedAddress>, bool))
    ensures
        r.0 == decode_bits(bits),
        r.1 == r.0 is None,
{
    let result = SharedAddress::from_bits(bits);
    let undo = result.is_none();
    (result, undo)
}

/// The ordering a failed exchange uses for its load, given the exchange's own.
pub fn failure_ordering(order: Ordering) -> (r: Ordering)
    ensures
        order == Ordering::SeqCst ==> r == Ordering::SeqCst,
        order == Ordering::AcqRel ==> r == Ordering::Acquire,
        order == Ordering::Acquire ==> r == Ordering::Acquire,
        order != Ordering::SeqCst && order != Ordering::AcqRel && order != Ordering::Acquire
            ==> r == Ordering::Relaxed,
        r != Ordering::Release,
        r != Ordering::AcqRel,
{
    match order {
        Ordering::SeqCst => Ordering::SeqCst,
        Ordering::AcqRel => Ordering::Acquire,
        Ordering::Acquire => Ordering::Acquire,
        _ => Ordering::Relaxed,
    }
}

/// Relies on `AtomicU64::compare_exchange`: on success it returns the previous
/// value, which equals `current`; on failure the previous value, which differs
/// from `current` (the strong exchange does not fail spuriously). `failure` must
/// be neither `Release` nor `AcqRel`, on which the call panics.
#[verifier::external_body]
fn exchange_u64(
    cell: &AtomicU64,
    current: u64,
    new: u64,
    success: Ordering,
    failure: Ordering,
) -> (r: Result<u64, u64>)
    requires
        failure != Ordering::Release,
        failure != Ordering::AcqRel,
    ensures
        r matches Ok(p) ==> p == current,
        r matches Err(p) ==> p != current,
{
    cell.compare_exchange(current, new, success, failure)
}

/// An atomic optional address.
pub struct AtomicSharedAddress(AtomicU64);

impl AtomicSharedAddress {
    /// A cell that holds `initial`.
    pub fn new(initial: Option<SharedAddress>) -> (r: AtomicSharedAddress) {
        AtomicSharedAddress(AtomicU64::new(to_opt_bits(initial)))
    }

    /// The address the cell holds, if any.
    pub fn load(&self, order: Ordering) -> (r: Option<SharedAddress>) {
        SharedAddress::from_bits(self.0.load(order))
    }

    /// Stores `new` if the cell holds `current`. Returns the address the cell held:
    /// `current` itself when the exchange took place.
    pub fn compare_and_swap(
        &self,
        current: Option<SharedAddress>,
        new: Option<SharedAddress>,
        order: Ordering,
    ) -> (r: Option<SharedAddress>) {
        match self.exchange(current, new, order) {
            Ok(()) => current,
            Err(previous) => previous,
        }
    }

    /// Adds `offset_delta(offset)` to the cell's bits, which advances the offset
    /// field of the address it holds, and returns the decoding of the bits it held
    /// before. An empty cell is restored and gives `None`.
    pub fn fetch_add(&self, offset: ObjectOffset, order: Ordering) -> (r: Option<SharedAddress>)
        ensures
            exists|before: u64| r == decode_bits(before),
    {
        let delta = offset_delta(offset);
        let bits = self.0.fetch_add(delta, order);
        let (result, undo) = decode_reserved(bits);
        if undo {
            self.0.fetch_sub(delta, order);
        }
        result
    }

    /// Stores `new` if the cell holds `current`; otherwise returns what it held.
    pub fn exchange(
        &self,
        current: Option<SharedAddress>,
        new: Option<SharedAddress>,
        order: Ordering,
    ) -> (r: Result<(), Option<SharedAddress>>)
        ensures
            r matches Err(Some(p)) ==> Some(p) != current,
    {
        let expected = to_opt_bits(current);
        let failure = failure_ordering(order);
        match exchange_u64(&self.0, expected, to_opt_bits(new), order, failure) {
            Ok(_) => Ok(()),
            Err(bits) => {
                let previous = SharedAddress::from_bits(bits);
                proof {
                    if let Some(p) = previous {
                        if let Some(c) = current {
                            if p == c {
                                assert(p.bits() == c.bits());
                            }
                        }
                    }
                }
                Err(previous)
            },
        }
    }
}

} // verus!

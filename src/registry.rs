//! The arena's registry of segments: claim flags probed with an atomic swap, and
//! the bounds check that guards a name lookup.
use crate::address::ShmemId;
use std::sync::atomic::{AtomicBool, Ordering};
use vstd::prelude::*;

verus! {

/// The number of segments an arena can register.
pub const MAX_SHMEMS: usize = 10_000;

/// The `k`-th slot probed by a registration that starts at `hint`, in a table of
/// `n` slots: the probe wraps around once.
pub open spec fn probe_slot(hint: nat, k: nat, n: nat) -> nat
    recommends
        n > 0,
{
    (hint + k) % n
}

proof fn lemma_probe_slot(hint: nat, k: nat, n: nat)
    requires
        k < n,
    ensures
        probe_slot(hint, k, n) == if hint % n < n - k {
            (hint % n + k) as int
        } else {
            k - (n - hint % n)
        },
{
    let start = hint % n;
    vstd::arithmetic::div_mod::lemma_small_mod(k, n);
    vstd::arithmetic::div_mod::lemma_add_mod_noop(hint as int, k as int, n as int);
    assert((hint + k) % n == (start + k) % n);
    if start < n - k {
        vstd::arithmetic::div_mod::lemma_small_mod((start + k) as nat, n);
    } else {
        let j: int = k - (n - start);
        assert(start + k == n * 1 + j);
        vstd::arithmetic::div_mod::lemma_mod_multiples_vanish(1, j, n as int);
        vstd::arithmetic::div_mod::lemma_small_mod(j as nat, n);
    }
}

/// The slot probed `k`-th by a registration that starts at `hint`, in a table of
/// `n` slots.
pub fn probe_index(hint: usize, k: usize, n: usize) -> (i: usize)
    requires
        0 < n,
        k < n,
    ensures
        i == probe_slot(hint as nat, k as nat, n as nat),
        i < n,
{
    proof {
        lemma_probe_slot(hint as nat, k as nat, n as nat);
    }
    let start = hint % n;
    if start < n - k {
        start + k
    } else {
        k - (n - start)
    }
}

/// What a registration does after its `k`-th probe.
#[derive(Clone, Copy, Debug, PartialEq, Eq, Structural)]
pub enum ProbeStep {
    /// The flag was clear: this slot is now the caller's.
    Claimed(usize),
    /// The flag was set: probe the next slot.
    Next,
    /// Every slot was probed and found set: the registry is full.
    Exhausted,
}

/// The step after the `k`-th probe, given whether the swap found the flag set.
pub fn probe_step(hint: usize, k: usize, n: usize, was_set: bool) -> (r: ProbeStep)
    requires
        0 < n,
        k < n,
    ensures
        !was_set ==> r == ProbeStep::Claimed(probe_slot(hint as nat, k as nat, n as nat) as usize),
        was_set && k + 1 < n ==> r == ProbeStep::Next,
        was_set && k + 1 == n ==> r == ProbeStep::Exhausted,
{
    if !was_set {
        ProbeStep::Claimed(probe_index(hint, k, n))
    } else if k + 1 < n {
        ProbeStep::Next
    } else {
        ProbeStep::Exhausted
    }
}

/// Claims a free slot: probes the flags from `hint` on, wrapping around, with an
/// atomic swap each (the slot of probe `k` is `probe_index(hint, k, n)`), and
/// follows `probe_step` on each swap's result: the first slot whose flag was clear
/// is returned, and `None` once all `n` flags were found set.
pub fn claim_slot(flags: &[AtomicBool], hint: usize) -> (r: Option<usize>)
    ensures
        r matches Some(i) ==> i < flags@.len() && exists|k: nat|
            k < flags@.len() && i == probe_slot(hint as nat, k, flags@.len() as nat),
        flags@.len() == 0 ==> r is None,
{
    let n = flags.len();
    if n == 0 {
        return None;
    }
    let mut k: usize = 0;
    loop
        invariant
            n == flags@.len(),
            0 < n,
            k < n,
        decreases n - k,
    {
        let i = probe_index(hint, k, n);
        let was_set = flags[i].swap(true, Ordering::SeqCst);
        match probe_step(hint, k, n, was_set) {
            ProbeStep::Claimed(slot) => {
                return Some(slot);
            },
            ProbeStep::Next => {
                k = k + 1;
            },
            ProbeStep::Exhausted => {
                return None;
            },
        }
    }
}

/// The slot of a segment id, where the id lies within the claim counter's reach
/// (`id <= claimed`) and the table's bounds.
pub fn name_index(shmem_id: ShmemId, claimed: usize) -> (r: Option<usize>)
    ensures
        r is Some <==> shmem_id.0 as nat <= claimed && (shmem_id.0 as nat) < MAX_SHMEMS,
        r matches Some(i) ==> i == shmem_id.0 as nat,
{
    let index = shmem_id.0 as usize;
    if index > claimed || index >= MAX_SHMEMS {
        None
    } else {
        Some(index)
    }
}

} // verus!

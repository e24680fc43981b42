//! The owning handle of one typed allocation: just its address.
use crate::address::{raw_is_valid, SharedAddress};
use std::marker::PhantomData;
use vstd::prelude::*;

verus! {

/// The handle of one value of type `T` in the shared heap. It holds only the
/// value's 8-byte address.
pub struct SharedBox<T> {
    address: SharedAddress,
    marker: PhantomData<T>,
}

impl<T> SharedBox<T> {
    /// The address the handle owns.
    pub closed spec fn address_spec(&self) -> SharedAddress {
        self.address
    }

    /// The handle of the value stored at `address`.
    pub fn from_address(address: SharedAddress) -> (r: SharedBox<T>)
        ensures
            r.address_spec() == address,
    {
        SharedBox { address, marker: PhantomData }
    }

    /// The address of the value.
    pub fn address(&self) -> (r: SharedAddress)
        ensures
            r == self.address_spec(),
            raw_is_valid(r.raw()),
    {
        self.address.address_facts();
        self.address
    }
}

} // verus!

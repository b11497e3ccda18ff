//! Address types tagged with their address-space kind.

use vstd::prelude::*;
use core::marker::PhantomData;

verus! {

/// Marker for physical addresses.
#[derive(Clone, Copy, PartialEq, Eq, Debug)]
pub struct Physical;

/// Marker for virtual addresses.
#[derive(Clone, Copy, PartialEq, Eq, Debug)]
pub struct Virtual;

/// A memory address tagged as either `Physical` or `Virtual`, so that a
/// table base prepared by the table builder can never be confused with a
/// virtual address to be translated.
#[derive(PartialEq, Eq, Debug)]
pub struct Address<ATYPE> {
    value: u64,
    addr_type: PhantomData<ATYPE>,
}

impl<ATYPE> View for Address<ATYPE> {
    type V = u64;

    closed spec fn view(&self) -> u64 {
        self.value
    }
}

impl<ATYPE> Address<ATYPE> {
    /// Create an address from a raw value.
    pub fn new(value: u64) -> (r: Self)
        ensures
            r@ == value,
    {
        Address { value, addr_type: PhantomData }
    }

    /// The raw value of the address.
    pub fn into_u64(self) -> (r: u64)
        ensures
            r == self@,
    {
        self.value
    }
}

} // verus!

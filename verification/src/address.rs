//! Public addresses as the reconciler sees them.

use vstd::prelude::*;

verus! {

/// The value of an address: its family and its bits, most significant first.
#[derive(Clone, Copy, Debug, PartialEq, Eq, Structural)]
pub enum AddressValue {
    V4(u32),
    V6(u128),
}

/// An IP address together with the literal it is written with.
///
/// Two addresses are the same address when their values agree; the literal
/// is only what gets persisted and shown.
#[derive(Debug)]
pub struct IpAddress {
    pub value: AddressValue,
    pub literal: String,
}

impl Clone for IpAddress {
    fn clone(&self) -> (copy: Self)
        ensures
            copy == *self,
    {
        IpAddress { value: self.value, literal: self.literal.clone() }
    }
}

impl IpAddress {
    pub fn new(value: AddressValue, literal: String) -> (address: IpAddress)
        ensures
            address.value == value,
            address.literal == literal,
    {
        IpAddress { value, literal }
    }

    /// Whether both stand for the same address, whatever their literals.
    pub open spec fn same_as(self, other: IpAddress) -> bool {
        self.value == other.value
    }

    pub fn is_same_as(&self, other: &IpAddress) -> (same: bool)
        ensures
            same == self.same_as(*other),
    {
        self.value == other.value
    }
}

} // verus!

//! Where a register lives.

use vstd::prelude::*;

verus! {

/// The address of a register on the device.
pub type Address = u8;

/// The highest address that holds a register.
pub const LAST_ADDRESS: Address = 0x19;

/// Something that has a place in the register map.
pub trait Addressable {
    /// The address of `self`.
    spec fn address(&self) -> Address;

    /// Every address lies within the register map.
    proof fn lemma_address_in_map(&self)
        ensures
            self.address() <= LAST_ADDRESS,
    ;

    fn get_address(&self) -> (a: Address)
        ensures
            a == self.address(),
    ;
}

} // verus!

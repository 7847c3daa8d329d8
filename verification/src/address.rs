//! Identities of accounts and contracts.

use vstd::prelude::*;

verus! {

/// Kind of an address that names an account.
pub const ACCOUNT: u32 = 0;

/// Kind of an address that names a contract.
pub const CONTRACT: u32 = 1;

/// An account or a contract: its kind and the two halves, most significant
/// first, of its 32-byte key.
#[derive(Clone, Copy, Debug, PartialEq, Eq, Structural)]
pub struct Address {
    pub kind: u32,
    pub hi: u128,
    pub lo: u128,
}

impl View for Address {
    type V = Address;

    open spec fn view(&self) -> Address {
        *self
    }
}

impl Address {
    /// The order in which the ledger sorts addresses: accounts before
    /// contracts, then by key.
    pub open spec fn precedes(self, other: Address) -> bool {
        ||| self.kind < other.kind
        ||| self.kind == other.kind && self.hi < other.hi
        ||| self.kind == other.kind && self.hi == other.hi && self.lo < other.lo
    }

    /// The account with the given key.
    pub fn account(hi: u128, lo: u128) -> (a: Address)
        ensures
            a == (Address { kind: ACCOUNT, hi, lo }),
    {
        Address { kind: ACCOUNT, hi, lo }
    }

    /// The contract with the given key.
    pub fn contract(hi: u128, lo: u128) -> (a: Address)
        ensures
            a == (Address { kind: CONTRACT, hi, lo }),
    {
        Address { kind: CONTRACT, hi, lo }
    }
}

} // verus!

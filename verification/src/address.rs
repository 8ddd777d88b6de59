//! Account identities.

use vstd::prelude::*;

verus! {

/// Identity of an account, a token contract or an administrator.
///
/// The ledger only ever compares identities, so an address is a plain
/// number: two addresses are the same account exactly when their ids are
/// equal.
#[derive(Clone, Copy, Debug, PartialEq, Eq, Structural, Hash)]
pub struct Address {
    pub id: u64,
}

impl Address {
    /// The address with the given id.
    pub fn new(id: u64) -> (a: Address)
        ensures
            a.id == id,
    {
        Address { id }
    }
}

} // verus!

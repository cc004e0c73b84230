//! Account identities.
//!
//! Callers are identified by 32-byte account keys. The coordinator only ever
//! compares identities and distinguishes the all-zero key, which marks a task
//! status that has not yet been assigned to any node; the key is carried here
//! as two 128-bit halves so those two operations are plain field reads.

use vstd::prelude::*;

verus! {

/// A 32-byte account key, split into a high and a low half.
#[derive(Clone, Copy, Debug, PartialEq, Eq, Structural)]
pub struct AccountId {
    pub hi: u128,
    pub lo: u128,
}

impl AccountId {
    /// The key a status record carries before any node is assigned.
    pub open spec fn spec_unassigned() -> AccountId {
        AccountId { hi: 0, lo: 0 }
    }

    /// Builds the all-zero key that stands for "no node assigned yet".
    pub fn unassigned() -> (r: AccountId)
        ensures
            r == AccountId::spec_unassigned(),
    {
        AccountId { hi: 0, lo: 0 }
    }

    /// True when this key is the all-zero "no node assigned yet" marker.
    pub fn is_unassigned(&self) -> (r: bool)
        ensures
            r == (*self == AccountId::spec_unassigned()),
    {
        self.hi == 0 && self.lo == 0
    }
}

} // verus!

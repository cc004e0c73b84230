//! Administrative state: the admin key and the oracle committee.
//!
//! The oracle committee is the set of keys authorized to drive task
//! assignment; the admin key gates who may install a committee. Signature
//! checks over these keys happen in the calling runtime, which hands the
//! caller's identity in as a plain value.

use crate::execution::SplitupError;
use crate::ids::AccountId;
use vstd::prelude::*;

verus! {

/// Most members an oracle committee may hold.
pub const MAX_MEMBERS: usize = 32;

/// The keys authorized to assign tasks to nodes.
#[derive(Debug)]
pub struct OracleCommittee {
    pub members: Vec<AccountId>,
}

/// The key allowed to install an oracle committee.
#[derive(Clone, Copy, Debug, PartialEq, Eq, Structural)]
pub struct AdminConfig {
    pub admin: AccountId,
}

/// Records the authority that bootstrapped the deployment as its admin.
pub fn initialize_admin(authority: AccountId) -> (r: AdminConfig)
    ensures
        r.admin == authority,
{
    AdminConfig { admin: authority }
}

/// Installs the oracle committee, rejecting one over the persisted bound.
/// That the caller is the admin is checked by the calling runtime against
/// `AdminConfig` before the committee is persisted.
pub fn register_oracle_committee(members: Vec<AccountId>) -> (r: Result<
    OracleCommittee,
    SplitupError,
>)
    ensures
        r is Ok <==> members@.len() <= MAX_MEMBERS,
        r is Ok ==> r->Ok_0.members == members,
        r is Err ==> r->Err_0 == SplitupError::Error,
{
    if members.len() > MAX_MEMBERS {
        return Err(SplitupError::Error);
    }
    Ok(OracleCommittee { members })
}

/// Whether a key sits on the committee; assignment authority in the calling
/// runtime is exactly committee membership.
pub fn committee_contains(committee: &OracleCommittee, key: AccountId) -> (r: bool)
    ensures
        r == committee.members@.contains(key),
{
    let n = committee.members.len();
    let mut i: usize = 0;
    while i < n
        invariant
            n == committee.members@.len(),
            0 <= i <= n,
            forall|j: int| 0 <= j < i ==> committee.members@[j] != key,
        decreases n - i,
    {
        if committee.members[i] == key {
            return true;
        }
        i = i + 1;
    }
    false
}

} // verus!

//! Node eligibility index.
//!
//! Answers "which staked nodes declare capability for a given task" by a linear
//! predicate scan over caller-supplied candidates. The result keeps the
//! input's insertion order and promises nothing about stake ranking; callers
//! wanting the highest-staked eligible node apply their own ordering.

use crate::ids::AccountId;
use crate::node::NodeInfo;
use vstd::prelude::*;

verus! {

/// A node declares capability for the task.
pub open spec fn node_specializes(n: NodeInfo, task_id: u64) -> bool {
    exists|i: int| 0 <= i < n.specializations@.len() && (#[trigger] n.specializations@[i]).task_id
        == task_id
}

/// The owners of the candidates that declare capability for the task, in
/// the candidates' order.
pub open spec fn eligible_owners(nodes: Seq<NodeInfo>, task_id: u64) -> Seq<AccountId>
    decreases nodes.len(),
{
    if nodes.len() == 0 {
        Seq::empty()
    } else {
        let rest = eligible_owners(nodes.drop_last(), task_id);
        if node_specializes(nodes.last(), task_id) {
            rest.push(nodes.last().owner)
        } else {
            rest
        }
    }
}

/// Scans one node's specialization set for the task.
fn specializes(node: &NodeInfo, task_id: u64) -> (r: bool)
    ensures
        r == node_specializes(*node, task_id),
{
    let n = node.specializations.len();
    let mut i: usize = 0;
    while i < n
        invariant
            n == node.specializations@.len(),
            0 <= i <= n,
            forall|j: int| 0 <= j < i ==> (#[trigger] node.specializations@[j]).task_id != task_id,
        decreases n - i,
    {
        if node.specializations[i].task_id == task_id {
            return true;
        }
        i = i + 1;
    }
    false
}

/// Yields the owner identity of every candidate node whose specialization
/// set contains `task_id`, in the candidates' insertion order.
pub fn find_eligible(task_id: u64, nodes: &Vec<NodeInfo>) -> (r: Vec<AccountId>)
    ensures
        r@ == eligible_owners(nodes@, task_id),
{
    let n = nodes.len();
    let mut r: Vec<AccountId> = Vec::new();
    let mut i: usize = 0;
    while i < n
        invariant
            n == nodes@.len(),
            0 <= i <= n,
            r@ == eligible_owners(nodes@.take(i as int), task_id),
        decreases n - i,
    {
        proof {
            assert(nodes@.take(i + 1).drop_last() =~= nodes@.take(i as int));
            assert(nodes@.take(i + 1).last() == nodes@[i as int]);
        }
        if specializes(&nodes[i], task_id) {
            r.push(nodes[i].owner);
        }
        i = i + 1;
    }
    proof {
        assert(nodes@.take(n as int) =~= nodes@);
    }
    r
}

} // verus!

//! Node registration and the stake ledger.
//!
//! A node is a staked worker. It is admitted with at least the minimum
//! collateral and a non-empty set of task specializations; afterwards only
//! its owner may move its balance, upward with an overflow check and
//! downward never below zero. The collateral transfer that accompanies each
//! balance move is performed by the surrounding runtime in the same atomic
//! step; this module owns the balance arithmetic and its gates.

use crate::ids::AccountId;
use vstd::prelude::*;

verus! {

/// Least collateral a node must stake to be admitted.
pub const MIN_STAKE: u64 = 30_000;

/// Most task specializations a node may declare.
pub const MAX_SPECIALIZATIONS: usize = 32;

/// One task kind a node declares itself able to execute.
#[derive(Clone, Copy, Debug, PartialEq, Eq, Structural)]
pub struct NodeSpecialization {
    pub task_id: u64,
}

/// Errors surfaced by node registration and stake moves.
#[derive(Clone, Copy, Debug, PartialEq, Eq, Structural)]
pub enum NodeError {
    /// The storage slot for this node already holds an initialized node.
    /// Raised by the storage layer's create-once gate, outside this crate.
    AlreadyInitialized,
    /// The admission stake is below the minimum, or a stake move of zero.
    InvalidStake,
    /// The caller is not the node's owner.
    Unauthorized,
    /// A node declared no specializations.
    EmptySpecialization,
    /// The balance would wrap around.
    StakeOverflow,
    /// A withdrawal asked for more than the current balance.
    InsufficientStake,
    /// A field exceeds its bounded cardinality and cannot be persisted.
    CapacityExceeded,
}

/// Registration payload for a node.
#[derive(Debug)]
pub struct NodeInfoInput {
    pub stake_amount: u64,
    pub specializations: Vec<NodeSpecialization>,
}

/// A registered node: its owner, its staked collateral balance and its
/// task specializations. The balance moves over the node's lifetime; the
/// rest is immutable.
#[derive(Debug)]
pub struct NodeInfo {
    pub owner: AccountId,
    pub stake_amount: u64,
    pub specializations: Vec<NodeSpecialization>,
}

impl From<NodeInfoInput> for NodeInfo {
    fn from(input: NodeInfoInput) -> (r: NodeInfo) {
        NodeInfo {
            owner: AccountId::unassigned(),
            stake_amount: input.stake_amount,
            specializations: input.specializations,
        }
    }
}

impl vstd::std_specs::convert::FromSpecImpl<NodeInfoInput> for NodeInfo {
    open spec fn obeys_from_spec() -> bool {
        true
    }

    open spec fn from_spec(input: NodeInfoInput) -> NodeInfo {
        NodeInfo {
            owner: AccountId::spec_unassigned(),
            stake_amount: input.stake_amount,
            specializations: input.specializations,
        }
    }
}

/// Admission gate: a node enters the pool with owner `owner`, collateral
/// `amount` and the declared specializations. The specialization set must be
/// non-empty and within the persisted bounds, and the stake at least the
/// minimum. On success the returned node is stored and `amount` moves from
/// the owner's spendable balance into the node's collateral in the same
/// atomic step, outside this crate.
pub fn register_node(owner: AccountId, node_info: NodeInfoInput, amount: u64) -> (r: Result<
    NodeInfo,
    NodeError,
>)
    ensures
        r is Ok <==> node_info.specializations@.len() > 0 && node_info.specializations@.len()
            <= MAX_SPECIALIZATIONS && amount >= MIN_STAKE,
        r is Ok ==> r->Ok_0 == (NodeInfo {
            owner,
            stake_amount: amount,
            specializations: node_info.specializations,
        }),
        r is Err ==> r->Err_0 == (if node_info.specializations@.len() == 0 {
            NodeError::EmptySpecialization
        } else if node_info.specializations@.len() > MAX_SPECIALIZATIONS {
            NodeError::CapacityExceeded
        } else {
            NodeError::InvalidStake
        }),
{
    if node_info.specializations.is_empty() {
        return Err(NodeError::EmptySpecialization);
    }
    if node_info.specializations.len() > MAX_SPECIALIZATIONS {
        return Err(NodeError::CapacityExceeded);
    }
    if amount < MIN_STAKE {
        return Err(NodeError::InvalidStake);
    }
    Ok(NodeInfo { owner, stake_amount: amount, specializations: node_info.specializations })
}

/// One balance move, as the ledger model sees it.
#[derive(Clone, Copy, Debug, PartialEq, Eq, Structural)]
pub enum StakeOp {
    /// The owner stakes this much more collateral.
    Increase(u64),
    /// The owner withdraws this much collateral.
    Decrease(u64),
}

/// Whether a balance move by the owner succeeds on the given balance: an
/// increase must be positive and must not wrap, a decrease must not exceed
/// the balance. A failed move leaves the balance untouched.
pub open spec fn stake_op_succeeds(balance: u64, op: StakeOp) -> bool {
    match op {
        StakeOp::Increase(a) => a > 0 && balance + a <= u64::MAX,
        StakeOp::Decrease(a) => a <= balance,
    }
}

/// The balance after one move by the owner: applied when it succeeds,
/// untouched when it fails.
pub open spec fn stake_op_result(balance: u64, op: StakeOp) -> u64 {
    match op {
        StakeOp::Increase(a) => if stake_op_succeeds(balance, op) {
            (balance + a) as u64
        } else {
            balance
        },
        StakeOp::Decrease(a) => if stake_op_succeeds(balance, op) {
            (balance - a) as u64
        } else {
            balance
        },
    }
}

/// The balance after a sequence of moves by the owner.
pub open spec fn stake_after(balance: u64, ops: Seq<StakeOp>) -> u64
    decreases ops.len(),
{
    if ops.len() == 0 {
        balance
    } else {
        stake_after(stake_op_result(balance, ops[0]), ops.drop_first())
    }
}

/// The sum of the increases that succeed along a sequence of moves.
pub open spec fn applied_increase_total(balance: u64, ops: Seq<StakeOp>) -> int
    decreases ops.len(),
{
    if ops.len() == 0 {
        0
    } else {
        (match ops[0] {
            StakeOp::Increase(a) => if stake_op_succeeds(balance, ops[0]) {
                a as int
            } else {
                0
            },
            StakeOp::Decrease(_) => 0,
        }) + applied_increase_total(stake_op_result(balance, ops[0]), ops.drop_first())
    }
}

/// The sum of the decreases that succeed along a sequence of moves.
pub open spec fn applied_decrease_total(balance: u64, ops: Seq<StakeOp>) -> int
    decreases ops.len(),
{
    if ops.len() == 0 {
        0
    } else {
        (match ops[0] {
            StakeOp::Decrease(a) => if stake_op_succeeds(balance, ops[0]) {
                a as int
            } else {
                0
            },
            StakeOp::Increase(_) => 0,
        }) + applied_decrease_total(stake_op_result(balance, ops[0]), ops.drop_first())
    }
}

/// Ledger balance invariant: after any sequence of increase and decrease
/// calls the balance never leaves the unsigned range, and it equals the
/// initial stake plus the increases that succeeded minus the decreases that
/// succeeded. A decrease exceeding the balance fails and moves nothing, which
/// is what keeps the balance from ever going below zero.
pub proof fn lemma_stake_balance_invariant(balance: u64, ops: Seq<StakeOp>)
    ensures
        0 <= stake_after(balance, ops) <= u64::MAX,
        stake_after(balance, ops) == balance + applied_increase_total(balance, ops)
            - applied_decrease_total(balance, ops),
    decreases ops.len(),
{
    if ops.len() > 0 {
        lemma_stake_balance_invariant(stake_op_result(balance, ops[0]), ops.drop_first());
    }
}

/// Stakes `amount` more collateral on the node. Only the owner may do so,
/// the amount must be positive, and the balance must not wrap. On success
/// the balance grows by exactly `amount` and the matching transfer happens
/// atomically outside this crate; on failure the node is untouched.
pub fn stake_collateral(node: &mut NodeInfo, caller: AccountId, amount: u64) -> (r: Result<
    (),
    NodeError,
>)
    ensures
        r is Ok <==> caller == old(node).owner && stake_op_succeeds(
            old(node).stake_amount,
            StakeOp::Increase(amount),
        ),
        final(node).owner == old(node).owner,
        final(node).specializations == old(node).specializations,
        caller == old(node).owner ==> final(node).stake_amount == stake_op_result(
            old(node).stake_amount,
            StakeOp::Increase(amount),
        ),
        caller != old(node).owner ==> final(node).stake_amount == old(node).stake_amount,
        r is Err ==> final(node).stake_amount == old(node).stake_amount,
        r is Err ==> r->Err_0 == (if caller != old(node).owner {
            NodeError::Unauthorized
        } else if amount == 0 {
            NodeError::InvalidStake
        } else {
            NodeError::StakeOverflow
        }),
{
    if !(caller == node.owner) {
        return Err(NodeError::Unauthorized);
    }
    if amount == 0 {
        return Err(NodeError::InvalidStake);
    }
    match node.stake_amount.checked_add(amount) {
        Some(new_amount) => {
            node.stake_amount = new_amount;
            Ok(())
        },
        None => Err(NodeError::StakeOverflow),
    }
}

/// Withdraws `amount` collateral from the node back to the owner's spendable
/// balance. Only the owner may do so, and never more than the current
/// balance. On success the balance shrinks by exactly `amount` and the
/// matching transfer happens atomically outside this crate; on failure the
/// node is untouched and nothing moves.
pub fn withdraw_collateral(node: &mut NodeInfo, caller: AccountId, amount: u64) -> (r: Result<
    (),
    NodeError,
>)
    ensures
        r is Ok <==> caller == old(node).owner && stake_op_succeeds(
            old(node).stake_amount,
            StakeOp::Decrease(amount),
        ),
        final(node).owner == old(node).owner,
        final(node).specializations == old(node).specializations,
        caller == old(node).owner ==> final(node).stake_amount == stake_op_result(
            old(node).stake_amount,
            StakeOp::Decrease(amount),
        ),
        caller != old(node).owner ==> final(node).stake_amount == old(node).stake_amount,
        r is Err ==> final(node).stake_amount == old(node).stake_amount,
        r is Err ==> r->Err_0 == (if caller != old(node).owner {
            NodeError::Unauthorized
        } else {
            NodeError::InsufficientStake
        }),
{
    if !(caller == node.owner) {
        return Err(NodeError::Unauthorized);
    }
    if node.stake_amount < amount {
        return Err(NodeError::InsufficientStake);
    }
    node.stake_amount = node.stake_amount - amount;
    Ok(())
}

} // verus!

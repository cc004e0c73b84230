//! Stake ledger and node eligibility.

use splitup::eligibility::find_eligible;
use splitup::ids::AccountId;
use splitup::node::{
    register_node, stake_collateral, withdraw_collateral, NodeError, NodeInfo, NodeInfoInput,
    NodeSpecialization, MIN_STAKE,
};

fn key(n: u128) -> AccountId {
    AccountId { hi: 0, lo: n }
}

fn specializations(task_ids: &[u64]) -> Vec<NodeSpecialization> {
    task_ids.iter().map(|&task_id| NodeSpecialization { task_id }).collect()
}

fn input(task_ids: &[u64]) -> NodeInfoInput {
    NodeInfoInput { stake_amount: 0, specializations: specializations(task_ids) }
}

#[test]
fn register_node_admits_at_minimum() {
    let node = register_node(key(1), input(&[1, 2]), MIN_STAKE).expect("minimum stake admits");
    assert_eq!(node.owner, key(1));
    assert_eq!(node.stake_amount, MIN_STAKE);
    assert_eq!(node.specializations.len(), 2);
}

#[test]
fn register_node_below_minimum_rejected() {
    assert!(matches!(
        register_node(key(1), input(&[1]), MIN_STAKE - 1),
        Err(NodeError::InvalidStake)
    ));
}

#[test]
fn register_node_empty_specializations_rejected() {
    assert!(matches!(
        register_node(key(1), input(&[]), MIN_STAKE),
        Err(NodeError::EmptySpecialization)
    ));
}

#[test]
fn register_node_too_many_specializations_rejected() {
    let ids: Vec<u64> = (1..=33).collect();
    assert!(matches!(
        register_node(key(1), input(&ids), MIN_STAKE),
        Err(NodeError::CapacityExceeded)
    ));
}

#[test]
fn stake_collateral_grows_balance() {
    let mut node = register_node(key(1), input(&[1]), MIN_STAKE).unwrap();
    assert!(stake_collateral(&mut node, key(1), 500).is_ok());
    assert_eq!(node.stake_amount, MIN_STAKE + 500);
}

#[test]
fn stake_collateral_rejects_non_owner() {
    let mut node = register_node(key(1), input(&[1]), MIN_STAKE).unwrap();
    assert_eq!(stake_collateral(&mut node, key(2), 500), Err(NodeError::Unauthorized));
    assert_eq!(node.stake_amount, MIN_STAKE);
}

#[test]
fn stake_collateral_rejects_zero() {
    let mut node = register_node(key(1), input(&[1]), MIN_STAKE).unwrap();
    assert_eq!(stake_collateral(&mut node, key(1), 0), Err(NodeError::InvalidStake));
    assert_eq!(node.stake_amount, MIN_STAKE);
}

#[test]
fn stake_collateral_rejects_overflow() {
    let mut node = NodeInfo {
        owner: key(1),
        stake_amount: u64::MAX - 10,
        specializations: specializations(&[1]),
    };
    assert_eq!(stake_collateral(&mut node, key(1), 11), Err(NodeError::StakeOverflow));
    assert_eq!(node.stake_amount, u64::MAX - 10);
    assert!(stake_collateral(&mut node, key(1), 10).is_ok());
    assert_eq!(node.stake_amount, u64::MAX);
}

#[test]
fn withdraw_collateral_beyond_balance_fails_unchanged() {
    let mut node = register_node(key(1), input(&[1]), MIN_STAKE).unwrap();
    assert_eq!(
        withdraw_collateral(&mut node, key(1), MIN_STAKE + 1),
        Err(NodeError::InsufficientStake)
    );
    assert_eq!(node.stake_amount, MIN_STAKE);
}

#[test]
fn withdraw_collateral_to_zero_allowed() {
    let mut node = register_node(key(1), input(&[1]), MIN_STAKE).unwrap();
    assert!(withdraw_collateral(&mut node, key(1), MIN_STAKE).is_ok());
    assert_eq!(node.stake_amount, 0);
}

#[test]
fn withdraw_collateral_rejects_non_owner() {
    let mut node = register_node(key(1), input(&[1]), MIN_STAKE).unwrap();
    assert_eq!(withdraw_collateral(&mut node, key(2), 1), Err(NodeError::Unauthorized));
    assert_eq!(node.stake_amount, MIN_STAKE);
}

#[test]
fn stake_sequence_balance_is_sum_of_applied_moves() {
    // Balance tracks initial + successful increases - successful decreases;
    // failed moves leave it untouched.
    let mut node = register_node(key(1), input(&[1]), 30_000).unwrap();
    assert!(stake_collateral(&mut node, key(1), 500).is_ok());
    assert!(withdraw_collateral(&mut node, key(1), 200).is_ok());
    assert!(withdraw_collateral(&mut node, key(1), 40_000).is_err());
    assert!(stake_collateral(&mut node, key(1), 0).is_err());
    assert!(stake_collateral(&mut node, key(2), 700).is_err());
    assert_eq!(node.stake_amount, 30_000 + 500 - 200);
}

#[test]
fn find_eligible_keeps_insertion_order() {
    let nodes = vec![
        NodeInfo { owner: key(1), stake_amount: 40_000, specializations: specializations(&[7]) },
        NodeInfo { owner: key(2), stake_amount: 90_000, specializations: specializations(&[5]) },
        NodeInfo {
            owner: key(3),
            stake_amount: 30_000,
            specializations: specializations(&[5, 7]),
        },
    ];
    assert_eq!(find_eligible(7, &nodes), vec![key(1), key(3)]);
    assert_eq!(find_eligible(5, &nodes), vec![key(2), key(3)]);
    assert_eq!(find_eligible(9, &nodes), Vec::<AccountId>::new());
}

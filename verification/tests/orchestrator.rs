//! Execution orchestrator transitions.

use splitup::admin::{
    committee_contains, initialize_admin, register_oracle_committee, MAX_MEMBERS,
};
use splitup::execution::{
    assign_task, cancel_execution, complete_task, get_random_number, request_model_execution,
    ExecutionStatus, SplitupError, TaskExecutionState,
};
use splitup::ids::AccountId;
use splitup::model::{ModelInfo, TaskConnection};
use splitup::task::TensorSpec;

fn key(n: u128) -> AccountId {
    AccountId { hi: 0, lo: n }
}

fn conn(src: u64, dst: u64) -> TaskConnection {
    TaskConnection {
        source_task_id: src,
        destination_task_id: dst,
        source_output_index: 0,
        dest_input_index: 0,
        tensor_spec: TensorSpec { dtype: 0, shape: vec![1], uri: String::from("ipfs://edge") },
    }
}

fn model(task_ids: Vec<u64>, connections: Vec<TaskConnection>) -> ModelInfo {
    ModelInfo {
        id: 10,
        name: String::from("model"),
        description: String::from("d"),
        creator: String::from("alice"),
        task_ids,
        connections,
    }
}

/// Entropy whose first eight little-endian bytes reduce to `(v % 100) + 1`.
fn entropy(v: u8) -> Vec<u8> {
    let mut bytes = vec![0u8; 32];
    bytes[0] = v;
    bytes
}

#[test]
fn request_execution_seeds_pending_status_per_task() {
    let m = model(vec![4, 9], vec![conn(4, 9)]);
    let e = request_model_execution(77, &m, key(1), String::from("ipfs://input"), 500, 123)
        .expect("a small model seeds");
    assert_eq!(e.id, 77);
    assert_eq!(e.model_id, 10);
    assert_eq!(e.max_fee, 500);
    assert_eq!(e.start_time, 123);
    assert_eq!(e.overall_status, ExecutionStatus::Requested);
    assert_eq!(e.task_statuses.len(), 2);
    for (i, st) in e.task_statuses.iter().enumerate() {
        assert_eq!(st.task_index, i as u64);
        assert_eq!(st.status, TaskExecutionState::Pending);
        assert_eq!(st.assigned_node, AccountId::unassigned());
        assert!(st.assigned_node.is_unassigned());
        assert!(st.task_to_verify.is_none());
        assert!(st.output_uris.is_empty());
    }
    assert_eq!(e.task_statuses[0].task_id, 4);
    assert_eq!(e.task_statuses[1].task_id, 9);
}

#[test]
fn request_execution_rejects_oversize_input_uri() {
    let m = model(vec![1], vec![]);
    let uri: String = "u".repeat(129);
    assert!(matches!(
        request_model_execution(1, &m, key(1), uri, 0, 0),
        Err(SplitupError::CapacityExceeded)
    ));
}

#[test]
fn assign_task_batch_gates_begin_signal() {
    let m = model(vec![1, 2], vec![conn(1, 2)]);
    let mut e = request_model_execution(1, &m, key(9), String::from("in"), 0, 0).unwrap();
    let begin_first = assign_task(&mut e, 1, key(11)).expect("task one assigns");
    assert!(!begin_first, "no begin signal while a task is still pending");
    assert_eq!(e.task_statuses[0].status, TaskExecutionState::Assigned);
    assert_eq!(e.task_statuses[0].assigned_node, key(11));
    assert_eq!(e.task_statuses[1].status, TaskExecutionState::Pending);
    let begin_second = assign_task(&mut e, 2, key(12)).expect("task two assigns");
    assert!(begin_second, "begin signal fires once the whole batch landed");
    assert_eq!(e.task_statuses[1].status, TaskExecutionState::Assigned);
    assert_eq!(e.task_statuses[1].assigned_node, key(12));
}

#[test]
fn assign_task_twice_rejected_without_double_assign() {
    let m = model(vec![1, 2], vec![conn(1, 2)]);
    let mut e = request_model_execution(1, &m, key(9), String::from("in"), 0, 0).unwrap();
    assert!(assign_task(&mut e, 1, key(11)).is_ok());
    assert_eq!(
        assign_task(&mut e, 1, key(12)),
        Err(SplitupError::InvalidExecutionStatus)
    );
    assert_eq!(e.task_statuses[0].assigned_node, key(11));
    assert_eq!(e.task_statuses[0].status, TaskExecutionState::Assigned);
}

#[test]
fn assign_task_unknown_task_not_found() {
    let m = model(vec![1, 2], vec![]);
    let mut e = request_model_execution(1, &m, key(9), String::from("in"), 0, 0).unwrap();
    assert_eq!(assign_task(&mut e, 3, key(11)), Err(SplitupError::NotFound));
    assert_eq!(e.task_statuses[0].status, TaskExecutionState::Pending);
}

#[test]
fn complete_sole_task_outside_threshold_finishes_execution() {
    let m = model(vec![1], vec![conn(1, 0)]);
    let mut e = request_model_execution(1, &m, key(9), String::from("in"), 0, 0).unwrap();
    assert!(assign_task(&mut e, 1, key(11)).is_ok());
    let outcome = complete_task(
        &mut e,
        &m,
        0,
        vec![String::from("ipfs://out")],
        &entropy(50),
        key(11),
    )
    .expect("the assigned node completes");
    assert!(!outcome.sampled, "a value of 51 lies outside the 8% threshold");
    assert!(outcome.all_completed);
    assert!(outcome.begin_indices.is_empty());
    assert!(!outcome.model_output_ready);
    assert_eq!(e.overall_status, ExecutionStatus::Completed);
    assert_eq!(e.task_statuses[0].status, TaskExecutionState::Completed);
    assert_eq!(e.task_statuses[0].output_uris, vec![String::from("ipfs://out")]);
    assert!(
        !e.task_statuses.iter().any(|s| s.status == TaskExecutionState::PendingVerification),
        "no shadow verification record appears"
    );
    assert_eq!(e.task_statuses.len(), 1);
}

#[test]
fn complete_task_within_threshold_marks_sampled() {
    let m = model(vec![1], vec![]);
    let mut e = request_model_execution(1, &m, key(9), String::from("in"), 0, 0).unwrap();
    assert!(assign_task(&mut e, 1, key(11)).is_ok());
    let outcome = complete_task(&mut e, &m, 0, vec![], &entropy(7), key(11)).unwrap();
    assert!(outcome.sampled, "a value of 8 lies within the threshold");
    assert_eq!(e.task_statuses[0].status, TaskExecutionState::Completed);
    assert_eq!(e.overall_status, ExecutionStatus::Completed);
}

#[test]
fn complete_task_advances_along_graph_edges() {
    let m = model(vec![1, 2], vec![conn(1, 2), conn(2, 0)]);
    let mut e = request_model_execution(1, &m, key(9), String::from("in"), 0, 0).unwrap();
    assert!(assign_task(&mut e, 1, key(11)).is_ok());
    assert!(assign_task(&mut e, 2, key(12)).is_ok());
    let first = complete_task(&mut e, &m, 0, vec![], &entropy(50), key(11)).unwrap();
    assert!(!first.all_completed);
    assert_eq!(first.begin_indices, vec![1], "the completed task feeds status index one");
    assert!(!first.model_output_ready);
    assert_eq!(e.overall_status, ExecutionStatus::Requested);
    let second = complete_task(&mut e, &m, 1, vec![], &entropy(50), key(12)).unwrap();
    assert!(second.all_completed);
    assert!(second.begin_indices.is_empty());
    assert_eq!(e.overall_status, ExecutionStatus::Completed);
}

#[test]
fn complete_task_boundary_edge_signals_model_output() {
    let m = model(vec![1, 2], vec![conn(1, 0)]);
    let mut e = request_model_execution(1, &m, key(9), String::from("in"), 0, 0).unwrap();
    assert!(assign_task(&mut e, 1, key(11)).is_ok());
    assert!(assign_task(&mut e, 2, key(12)).is_ok());
    let outcome = complete_task(&mut e, &m, 0, vec![], &entropy(50), key(11)).unwrap();
    assert!(!outcome.all_completed);
    assert!(outcome.begin_indices.is_empty());
    assert!(outcome.model_output_ready);
}

#[test]
fn complete_task_wrong_reporter_unauthorized() {
    let m = model(vec![1], vec![]);
    let mut e = request_model_execution(1, &m, key(9), String::from("in"), 0, 0).unwrap();
    assert!(assign_task(&mut e, 1, key(11)).is_ok());
    let r = complete_task(&mut e, &m, 0, vec![], &entropy(50), key(12));
    assert!(matches!(r, Err(SplitupError::Unauthorized)));
    assert_eq!(e.task_statuses[0].status, TaskExecutionState::Assigned);
}

#[test]
fn complete_task_pending_record_rejected() {
    let m = model(vec![1], vec![]);
    let mut e = request_model_execution(1, &m, key(9), String::from("in"), 0, 0).unwrap();
    let r = complete_task(&mut e, &m, 0, vec![], &entropy(50), key(11));
    assert!(matches!(r, Err(SplitupError::InvalidExecutionStatus)));
}

#[test]
fn complete_task_bad_index_not_found() {
    let m = model(vec![1], vec![]);
    let mut e = request_model_execution(1, &m, key(9), String::from("in"), 0, 0).unwrap();
    let r = complete_task(&mut e, &m, 1, vec![], &entropy(50), key(11));
    assert!(matches!(r, Err(SplitupError::NotFound)));
}

#[test]
fn complete_task_oversize_outputs_rejected() {
    let m = model(vec![1], vec![]);
    let mut e = request_model_execution(1, &m, key(9), String::from("in"), 0, 0).unwrap();
    assert!(assign_task(&mut e, 1, key(11)).is_ok());
    let outputs: Vec<String> = (0..9).map(|i| format!("ipfs://out/{}", i)).collect();
    let r = complete_task(&mut e, &m, 0, outputs, &entropy(50), key(11));
    assert!(matches!(r, Err(SplitupError::CapacityExceeded)));
    assert_eq!(e.task_statuses[0].status, TaskExecutionState::Assigned);
}

#[test]
fn cancel_execution_only_requestor() {
    let m = model(vec![1], vec![]);
    let mut e = request_model_execution(1, &m, key(9), String::from("in"), 0, 0).unwrap();
    assert_eq!(cancel_execution(&mut e, key(8)), Err(SplitupError::Unauthorized));
    assert_eq!(e.overall_status, ExecutionStatus::Requested);
    assert!(cancel_execution(&mut e, key(9)).is_ok());
    assert_eq!(e.overall_status, ExecutionStatus::Canceled);
}

#[test]
fn canceled_execution_rejects_transitions() {
    let m = model(vec![1], vec![]);
    let mut e = request_model_execution(1, &m, key(9), String::from("in"), 0, 0).unwrap();
    assert!(cancel_execution(&mut e, key(9)).is_ok());
    assert_eq!(
        assign_task(&mut e, 1, key(11)),
        Err(SplitupError::InvalidExecutionStatus)
    );
    let r = complete_task(&mut e, &m, 0, vec![], &entropy(50), key(11));
    assert!(matches!(r, Err(SplitupError::InvalidExecutionStatus)));
}

#[test]
fn completed_execution_rejects_cancel() {
    let m = model(vec![1], vec![]);
    let mut e = request_model_execution(1, &m, key(9), String::from("in"), 0, 0).unwrap();
    assert!(assign_task(&mut e, 1, key(11)).is_ok());
    assert!(complete_task(&mut e, &m, 0, vec![], &entropy(50), key(11)).is_ok());
    assert_eq!(cancel_execution(&mut e, key(9)), Err(SplitupError::InvalidExecutionStatus));
    assert_eq!(e.overall_status, ExecutionStatus::Completed);
}

#[test]
fn random_number_is_deterministic_reduction() {
    let zero = [0u8; 8];
    assert_eq!(get_random_number(&zero), 1);
    assert_eq!(get_random_number(&entropy(99)), 100);
    assert_eq!(get_random_number(&entropy(100)), 1);
    // 0x012a little-endian is 298; (298 % 100) + 1 is 99.
    let mut multi = vec![0u8; 8];
    multi[0] = 0x2a;
    multi[1] = 0x01;
    assert_eq!(get_random_number(&multi), 99);
    // The reduction reads only the first eight bytes and is reproducible.
    let mut long = vec![7u8; 32];
    long[0] = 42;
    let first = get_random_number(&long);
    let again = get_random_number(&long);
    assert_eq!(first, again);
}

#[test]
fn oracle_committee_bounded_and_searchable() {
    let admin = initialize_admin(key(1));
    assert_eq!(admin.admin, key(1));
    let committee =
        register_oracle_committee(vec![key(5), key(6)]).expect("a small committee installs");
    assert!(committee_contains(&committee, key(5)));
    assert!(!committee_contains(&committee, key(7)));
    let too_many: Vec<AccountId> = (0..(MAX_MEMBERS as u128 + 1)).map(key).collect();
    assert!(matches!(register_oracle_committee(too_many), Err(SplitupError::Error)));
}

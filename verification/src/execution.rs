//! The execution orchestrator.
//!
//! One run of a model is tracked as an execution: one status record per task,
//! in the model's task order, plus an overall status. Transitions are driven
//! by external callers — a scheduler assigns tasks, workers report
//! completions, the requestor may cancel — and each transition either runs to
//! completion or fails without touching the record. Advancement follows the
//! model's connection graph, not a flat counter: completing a task signals
//! "begin" for the status index of every destination it feeds, and a
//! boundary edge signals that a model output is ready.
//!
//! On every completion a pseudo-random value in `[1, 100]` is reduced from an
//! externally supplied entropy beacon; values within the sampling threshold
//! mark the result for advisory shadow re-verification. The decision is
//! surfaced to the caller and no shadow record is appended, so verification
//! can never block the primary pipeline.

use crate::ids::AccountId;
use crate::model::{ModelInfo, TaskConnection};
use vstd::prelude::*;

verus! {

/// Most task status records an execution may hold.
pub const MAX_EXEC_TASKS: usize = 16;

/// Most output location references one completion may record.
pub const MAX_OUTPUT_URIS: usize = 8;

/// Longest location reference an execution record may carry, in characters.
pub const MAX_EXEC_URI_LEN: usize = 128;

/// A completion whose sampled value is at most this is marked for advisory
/// re-verification (8 of 100, an 8% sampling rate).
pub const SAMPLING_THRESHOLD: u64 = 8;

/// Lifecycle of one task status record.
#[derive(Clone, Copy, Debug, PartialEq, Eq, Structural)]
pub enum TaskExecutionState {
    Pending,
    Assigned,
    InProgress,
    Completed,
    Failed,
    PendingVerification,
    Verified,
}

/// Lifecycle of a whole execution. `Completed` and `Canceled` are terminal.
#[derive(Clone, Copy, Debug, PartialEq, Eq, Structural)]
pub enum ExecutionStatus {
    Requested,
    InProgress,
    Completed,
    Canceled,
}

/// Errors surfaced by orchestrator transitions.
#[derive(Clone, Copy, Debug, PartialEq, Eq, Structural)]
pub enum SplitupError {
    /// The transition is not allowed from the current status.
    InvalidExecutionStatus,
    /// A completion was reported for a task that has no assigned node.
    TaskNotAssigned,
    /// The caller may not drive this transition.
    Unauthorized,
    /// A task outlived its deadline. Reserved for a liveness watchdog
    /// layered outside this crate.
    TaskDeadlineExceeded,
    /// No status record matches the requested task.
    NotFound,
    /// A request exceeded a configured bound.
    Error,
    /// A field exceeds its bounded cardinality and cannot be persisted.
    CapacityExceeded,
}

/// The per-task unit the orchestrator transitions.
#[derive(Debug)]
pub struct TaskExecutionStatus {
    /// Position of this record in the execution's status vector.
    pub task_index: u64,
    /// The task this record tracks.
    pub task_id: u64,
    /// For a shadow re-verification record, the status index it re-checks.
    pub task_to_verify: Option<u64>,
    /// The worker driving the task; the all-zero key until assignment.
    pub assigned_node: AccountId,
    pub status: TaskExecutionState,
    pub input_uris: Vec<String>,
    pub output_uris: Vec<String>,
    pub start_time: i64,
    pub completion_time: i64,
}

/// One run of a model: the audit trail of every task's lifecycle.
#[derive(Debug)]
pub struct ModelExecution {
    pub id: u64,
    pub model_id: u64,
    /// Who requested the run; only they may cancel it.
    pub requestor: AccountId,
    /// Economic bound the requestor put on the run.
    pub max_fee: u64,
    /// One record per task of the model, in the model's task order.
    pub task_statuses: Vec<TaskExecutionStatus>,
    pub overall_status: ExecutionStatus,
    /// The model's global input location.
    pub input_uri: String,
    /// The model's final output location, once known.
    pub output_uri: String,
    pub start_time: i64,
    pub completion_time: i64,
}

/// What one completion set in motion.
#[derive(Debug)]
pub struct CompletionOutcome {
    /// The sampled value fell within the threshold: the result is marked for
    /// advisory shadow re-verification and a fresh node selection should be
    /// requested for it.
    pub sampled: bool,
    /// Every record is now complete and the execution reached its terminal
    /// success status.
    pub all_completed: bool,
    /// Status indices whose tasks should now begin: the destinations the
    /// completed task feeds.
    pub begin_indices: Vec<u64>,
    /// The completed task feeds a model boundary edge: a model output is
    /// ready.
    pub model_output_ready: bool,
}

/// An execution still accepts transitions: it reached neither terminal
/// status.
pub open spec fn exec_active(e: ModelExecution) -> bool {
    e.overall_status is Requested || e.overall_status is InProgress
}

/// The least position at or after `i` whose record tracks `task_id`, or the
/// vector's length when there is none.
pub open spec fn first_task_index_from(s: Seq<TaskExecutionStatus>, task_id: u64, i: int) -> int
    decreases s.len() - i,
{
    if i < 0 || i >= s.len() {
        s.len() as int
    } else if s[i].task_id == task_id {
        i
    } else {
        first_task_index_from(s, task_id, i + 1)
    }
}

/// The least position whose record tracks `task_id`, or the vector's length.
pub open spec fn first_task_index(s: Seq<TaskExecutionStatus>, task_id: u64) -> int {
    first_task_index_from(s, task_id, 0)
}

/// Some record tracks `task_id`.
pub open spec fn spec_has_task(s: Seq<TaskExecutionStatus>, task_id: u64) -> bool {
    first_task_index(s, task_id) < s.len()
}

pub proof fn lemma_first_task_index_from(s: Seq<TaskExecutionStatus>, task_id: u64, i: int)
    requires
        0 <= i <= s.len(),
    ensures
        i <= first_task_index_from(s, task_id, i) <= s.len(),
        first_task_index_from(s, task_id, i) < s.len() ==> s[first_task_index_from(
            s,
            task_id,
            i,
        )].task_id == task_id,
        forall|j: int|
            i <= j < first_task_index_from(s, task_id, i) ==> (#[trigger] s[j]).task_id != task_id,
    decreases s.len() - i,
{
    if i < s.len() && s[i].task_id != task_id {
        lemma_first_task_index_from(s, task_id, i + 1);
    }
}

/// Where the records' task ids agree pointwise, so does the search.
pub proof fn lemma_first_task_index_same_ids(
    s1: Seq<TaskExecutionStatus>,
    s2: Seq<TaskExecutionStatus>,
    task_id: u64,
    i: int,
)
    requires
        s1.len() == s2.len(),
        0 <= i <= s1.len(),
        forall|j: int| 0 <= j < s1.len() ==> (#[trigger] s1[j]).task_id == s2[j].task_id,
    ensures
        first_task_index_from(s1, task_id, i) == first_task_index_from(s2, task_id, i),
    decreases s1.len() - i,
{
    if i < s1.len() && s1[i].task_id != task_id {
        lemma_first_task_index_same_ids(s1, s2, task_id, i + 1);
    }
}

/// Every record has been assigned (or moved beyond assignment).
pub open spec fn all_assigned(s: Seq<TaskExecutionStatus>) -> bool {
    forall|i: int| 0 <= i < s.len() ==> !((#[trigger] s[i]).status is Pending)
}

/// Every record is complete.
pub open spec fn all_completed(s: Seq<TaskExecutionStatus>) -> bool {
    forall|i: int| 0 <= i < s.len() ==> (#[trigger] s[i]).status is Completed
}

/// A fresh status record as `request_model_execution` seeds it: position and
/// task id set, nothing assigned, nothing recorded, `Pending`.
pub open spec fn fresh_status(st: TaskExecutionStatus, idx: int, task_id: u64) -> bool {
    &&& st.task_index == idx
    &&& st.task_id == task_id
    &&& st.task_to_verify is None
    &&& st.assigned_node == AccountId::spec_unassigned()
    &&& st.status is Pending
    &&& st.input_uris@.len() == 0
    &&& st.output_uris@.len() == 0
    &&& st.start_time == 0
    &&& st.completion_time == 0
}

/// The record after assignment: the node and the `Assigned` state land, the
/// rest carries over.
pub open spec fn assigned_status(st: TaskExecutionStatus, node: AccountId) -> TaskExecutionStatus {
    TaskExecutionStatus { assigned_node: node, status: TaskExecutionState::Assigned, ..st }
}

/// The record after completion: the reported outputs and the `Completed`
/// state land, the rest carries over.
pub open spec fn completed_status(
    st: TaskExecutionStatus,
    output_uris: Vec<String>,
) -> TaskExecutionStatus {
    TaskExecutionStatus { output_uris, status: TaskExecutionState::Completed, ..st }
}

/// Two executions agree on everything but the status vector and the overall
/// status.
pub open spec fn same_execution_header(a: ModelExecution, b: ModelExecution) -> bool {
    &&& a.id == b.id
    &&& a.model_id == b.model_id
    &&& a.requestor == b.requestor
    &&& a.max_fee == b.max_fee
    &&& a.input_uri == b.input_uri
    &&& a.output_uri == b.output_uri
    &&& a.start_time == b.start_time
    &&& a.completion_time == b.completion_time
}

/// A list of output locations fits the persisted bounds.
pub open spec fn uris_within_capacity(us: Seq<String>) -> bool {
    &&& us.len() <= MAX_OUTPUT_URIS
    &&& forall|i: int| 0 <= i < us.len() ==> (#[trigger] us[i])@.len() <= MAX_EXEC_URI_LEN
}

/// The single creation point for an execution. Seeds one `Pending` record
/// per task of the model, preserving the model's task order as the status
/// index order, sets the overall status to `Requested` and records the start
/// timestamp. Rejects a payload over the persisted bounds; no partial
/// execution is ever produced.
pub fn request_model_execution(
    execution_id: u64,
    model: &ModelInfo,
    requestor: AccountId,
    input_uri: String,
    max_fee: u64,
    now: i64,
) -> (r: Result<ModelExecution, SplitupError>)
    ensures
        r is Ok <==> model.task_ids@.len() <= MAX_EXEC_TASKS && input_uri@.len()
            <= MAX_EXEC_URI_LEN,
        r is Err ==> r->Err_0 == SplitupError::CapacityExceeded,
        r is Ok ==> ({
            let e = r->Ok_0;
            &&& e.id == execution_id
            &&& e.model_id == model.id
            &&& e.requestor == requestor
            &&& e.max_fee == max_fee
            &&& e.input_uri == input_uri
            &&& e.output_uri@.len() == 0
            &&& e.start_time == now
            &&& e.completion_time == 0
            &&& e.overall_status is Requested
            &&& e.task_statuses@.len() == model.task_ids@.len()
            &&& forall|i: int|
                0 <= i < model.task_ids@.len() ==> fresh_status(
                    #[trigger] e.task_statuses@[i],
                    i,
                    model.task_ids@[i],
                )
        }),
{
    if model.task_ids.len() > MAX_EXEC_TASKS {
        return Err(SplitupError::CapacityExceeded);
    }
    if input_uri.as_str().unicode_len() > MAX_EXEC_URI_LEN {
        return Err(SplitupError::CapacityExceeded);
    }
    let n = model.task_ids.len();
    let mut task_statuses: Vec<TaskExecutionStatus> = Vec::new();
    let mut i: usize = 0;
    while i < n
        invariant
            n == model.task_ids@.len(),
            0 <= i <= n,
            task_statuses@.len() == i,
            forall|j: int|
                0 <= j < i ==> fresh_status(
                    #[trigger] task_statuses@[j],
                    j,
                    model.task_ids@[j],
                ),
        decreases n - i,
    {
        task_statuses.push(
            TaskExecutionStatus {
                task_index: i as u64,
                task_id: model.task_ids[i],
                task_to_verify: None,
                assigned_node: AccountId::unassigned(),
                status: TaskExecutionState::Pending,
                input_uris: Vec::new(),
                output_uris: Vec::new(),
                start_time: 0,
                completion_time: 0,
            },
        );
        i = i + 1;
    }
    Ok(
        ModelExecution {
            id: execution_id,
            model_id: model.id,
            requestor,
            max_fee,
            task_statuses,
            overall_status: ExecutionStatus::Requested,
            input_uri,
            output_uri: String::new(),
            start_time: now,
            completion_time: 0,
        },
    )
}

/// Finds the first status record tracking `task_id`.
fn find_status_index(statuses: &Vec<TaskExecutionStatus>, task_id: u64) -> (r: Option<usize>)
    ensures
        match r {
            Some(i) => i == first_task_index(statuses@, task_id) && i < statuses@.len()
                && statuses@[i as int].task_id == task_id,
            None => !spec_has_task(statuses@, task_id),
        },
{
    let n = statuses.len();
    let mut i: usize = 0;
    while i < n
        invariant
            n == statuses@.len(),
            0 <= i <= n,
            first_task_index(statuses@, task_id) == first_task_index_from(
                statuses@,
                task_id,
                i as int,
            ),
        decreases n - i,
    {
        if statuses[i].task_id == task_id {
            return Some(i);
        }
        i = i + 1;
    }
    None
}

/// Scans the whole status vector for any record still `Pending`.
fn check_all_assigned(statuses: &Vec<TaskExecutionStatus>) -> (r: bool)
    ensures
        r == all_assigned(statuses@),
{
    let n = statuses.len();
    let mut i: usize = 0;
    while i < n
        invariant
            n == statuses@.len(),
            0 <= i <= n,
            forall|j: int| 0 <= j < i ==> !((#[trigger] statuses@[j]).status is Pending),
        decreases n - i,
    {
        if matches!(statuses[i].status, TaskExecutionState::Pending) {
            return false;
        }
        i = i + 1;
    }
    true
}

/// Scans the whole status vector for any record not yet `Completed`.
fn check_all_completed(statuses: &Vec<TaskExecutionStatus>) -> (r: bool)
    ensures
        r == all_completed(statuses@),
{
    let n = statuses.len();
    let mut i: usize = 0;
    while i < n
        invariant
            n == statuses@.len(),
            0 <= i <= n,
            forall|j: int| 0 <= j < i ==> (#[trigger] statuses@[j]).status is Completed,
        decreases n - i,
    {
        if !matches!(statuses[i].status, TaskExecutionState::Completed) {
            return false;
        }
        i = i + 1;
    }
    true
}

/// Locates the record tracking `task_id` (first match over the vector),
/// requires it to be `Pending`, and lands the node and the `Assigned` state
/// on it. Returns whether every record is now assigned: the all-or-nothing
/// gate — a full batch of assignments must land before any task begins, and
/// the begin signal for the first status index fires exactly when the last
/// assignment lands. A terminal or unknown target leaves the execution
/// untouched.
pub fn assign_task(e: &mut ModelExecution, task_id: u64, node: AccountId) -> (r: Result<
    bool,
    SplitupError,
>)
    ensures
        r is Ok <==> (exec_active(*old(e)) && spec_has_task(old(e).task_statuses@, task_id) && old(
            e,
        ).task_statuses@[first_task_index(old(e).task_statuses@, task_id)].status is Pending),
        r is Ok ==> ({
            let i = first_task_index(old(e).task_statuses@, task_id);
            &&& final(e).task_statuses@ == old(e).task_statuses@.update(
                i,
                assigned_status(old(e).task_statuses@[i], node),
            )
            &&& final(e).overall_status == old(e).overall_status
            &&& same_execution_header(*final(e), *old(e))
            &&& r->Ok_0 == all_assigned(final(e).task_statuses@)
        }),
        r is Err ==> *final(e) == *old(e) && r->Err_0 == (if !exec_active(*old(e)) {
            SplitupError::InvalidExecutionStatus
        } else if !spec_has_task(old(e).task_statuses@, task_id) {
            SplitupError::NotFound
        } else {
            SplitupError::InvalidExecutionStatus
        }),
{
    if matches!(e.overall_status, ExecutionStatus::Completed)
        || matches!(e.overall_status, ExecutionStatus::Canceled) {
        return Err(SplitupError::InvalidExecutionStatus);
    }
    let idx = match find_status_index(&e.task_statuses, task_id) {
        Some(idx) => idx,
        None => {
            return Err(SplitupError::NotFound);
        },
    };
    if !matches!(e.task_statuses[idx].status, TaskExecutionState::Pending) {
        return Err(SplitupError::InvalidExecutionStatus);
    }
    e.task_statuses[idx].assigned_node = node;
    e.task_statuses[idx].status = TaskExecutionState::Assigned;
    proof {
        assert(e.task_statuses@ =~= old(e).task_statuses@.update(
            idx as int,
            assigned_status(old(e).task_statuses@[idx as int], node),
        ));
    }
    let begin = check_all_assigned(&e.task_statuses);
    Ok(begin)
}

/// A second assignment to a task already assigned is rejected. After one
/// assignment lands on the first record tracking `task_id`, that record is
/// the one a repeated call locates, and it is `Assigned`, not `Pending` — so
/// by `assign_task`'s contract the repeated call fails with
/// `InvalidExecutionStatus` and leaves every record unchanged: assignment is
/// idempotent-safe and never double-assigns.
pub proof fn lemma_assign_task_idempotent(
    s: Seq<TaskExecutionStatus>,
    task_id: u64,
    node: AccountId,
)
    requires
        spec_has_task(s, task_id),
        s[first_task_index(s, task_id)].status is Pending,
    ensures
        ({
            let i = first_task_index(s, task_id);
            let s2 = s.update(i, assigned_status(s[i], node));
            &&& spec_has_task(s2, task_id)
            &&& first_task_index(s2, task_id) == i
            &&& s2[first_task_index(s2, task_id)].status is Assigned
        }),
{
    let i = first_task_index(s, task_id);
    lemma_first_task_index_from(s, task_id, 0);
    let s2 = s.update(i, assigned_status(s[i], node));
    lemma_first_task_index_same_ids(s, s2, task_id, 0);
}

/// The pseudo-random value in `[1, 100]` reduced from the first eight bytes
/// of the entropy beacon, read as a little-endian integer.
pub open spec fn sample_value(b: Seq<u8>) -> int {
    (b[0] + b[1] * 0x100 + b[2] * 0x1_0000 + b[3] * 0x100_0000 + b[4] * 0x1_0000_0000 + b[5]
        * 0x100_0000_0000 + b[6] * 0x1_0000_0000_0000 + b[7] * 0x100_0000_0000_0000) % 100 + 1
}

/// Reduces the entropy beacon to a value in `[1, 100]`: the first eight
/// bytes, read little-endian, taken modulo 100, plus one. A deterministic
/// function of the bytes alone, so the sampling decision is reproducible by
/// re-running it on the same beacon.
pub fn get_random_number(recent_slothash: &[u8]) -> (r: u64)
    requires
        recent_slothash@.len() >= 8,
    ensures
        r == sample_value(recent_slothash@),
        1 <= r <= 100,
{
    let b0 = recent_slothash[0] as u64;
    let b1 = recent_slothash[1] as u64;
    let b2 = recent_slothash[2] as u64;
    let b3 = recent_slothash[3] as u64;
    let b4 = recent_slothash[4] as u64;
    let b5 = recent_slothash[5] as u64;
    let b6 = recent_slothash[6] as u64;
    let b7 = recent_slothash[7] as u64;
    let hash_value = b0 + b1 * 0x100 + b2 * 0x1_0000 + b3 * 0x100_0000 + b4 * 0x1_0000_0000 + b5
        * 0x100_0000_0000 + b6 * 0x1_0000_0000_0000 + b7 * 0x100_0000_0000_0000;
    (hash_value % 100) + 1
}

/// The status indices to begin after `src_id` completes: for each connection
/// whose source is `src_id`, in the connections' order, the first status
/// index tracking its non-zero destination.
pub open spec fn begin_targets(
    conns: Seq<TaskConnection>,
    statuses: Seq<TaskExecutionStatus>,
    src_id: u64,
) -> Seq<u64>
    decreases conns.len(),
{
    if conns.len() == 0 {
        Seq::empty()
    } else {
        let rest = begin_targets(conns.drop_last(), statuses, src_id);
        let c = conns.last();
        if c.source_task_id == src_id && c.destination_task_id != 0 && spec_has_task(
            statuses,
            c.destination_task_id,
        ) {
            rest.push(first_task_index(statuses, c.destination_task_id) as u64)
        } else {
            rest
        }
    }
}

/// The completed task feeds a model boundary edge: some connection leaves
/// `src_id` for destination zero.
pub open spec fn feeds_model_output(conns: Seq<TaskConnection>, src_id: u64) -> bool {
    exists|i: int|
        0 <= i < conns.len() && (#[trigger] conns[i]).source_task_id == src_id
            && conns[i].destination_task_id == 0
}

/// Records a worker's completion of the task at `task_index` and advances
/// the execution. The record must be `Assigned` or `InProgress` and the
/// reporter must be its assigned node. The entropy beacon decides, within
/// the sampling threshold, whether the result is marked for advisory shadow
/// re-verification; the primary record completes regardless. If every record
/// is then complete the execution terminates successfully; otherwise the
/// model's connection graph is walked from the completed task and the
/// outcome lists the status indices to begin next, plus whether a model
/// boundary edge was fed. A failed gate leaves the execution untouched.
pub fn complete_task(
    e: &mut ModelExecution,
    model: &ModelInfo,
    task_index: u64,
    output_uris: Vec<String>,
    entropy: &[u8],
    reporter: AccountId,
) -> (r: Result<CompletionOutcome, SplitupError>)
    requires
        entropy@.len() >= 8,
    ensures
        r is Ok <==> (exec_active(*old(e)) && task_index < old(e).task_statuses@.len() && (old(
            e,
        ).task_statuses@[task_index as int].status is Assigned || old(
            e,
        ).task_statuses@[task_index as int].status is InProgress) && reporter == old(
            e,
        ).task_statuses@[task_index as int].assigned_node && uris_within_capacity(output_uris@)),
        r is Err ==> *final(e) == *old(e) && r->Err_0 == (if !exec_active(*old(e)) {
            SplitupError::InvalidExecutionStatus
        } else if task_index >= old(e).task_statuses@.len() {
            SplitupError::NotFound
        } else if !(old(e).task_statuses@[task_index as int].status is Assigned || old(
            e,
        ).task_statuses@[task_index as int].status is InProgress) {
            SplitupError::InvalidExecutionStatus
        } else if reporter != old(e).task_statuses@[task_index as int].assigned_node {
            SplitupError::Unauthorized
        } else {
            SplitupError::CapacityExceeded
        }),
        r is Ok ==> ({
            let i = task_index as int;
            let tid = old(e).task_statuses@[i].task_id;
            let done = all_completed(final(e).task_statuses@);
            let o = r->Ok_0;
            &&& final(e).task_statuses@ == old(e).task_statuses@.update(
                i,
                completed_status(old(e).task_statuses@[i], output_uris),
            )
            &&& final(e).overall_status == (if done {
                ExecutionStatus::Completed
            } else {
                old(e).overall_status
            })
            &&& same_execution_header(*final(e), *old(e))
            &&& o.sampled == (sample_value(entropy@) <= SAMPLING_THRESHOLD)
            &&& o.all_completed == done
            &&& (done ==> o.begin_indices@.len() == 0 && !o.model_output_ready)
            &&& (!done ==> o.begin_indices@ == begin_targets(
                model.connections@,
                final(e).task_statuses@,
                tid,
            ) && o.model_output_ready == feeds_model_output(model.connections@, tid))
        }),
{
    if matches!(e.overall_status, ExecutionStatus::Completed)
        || matches!(e.overall_status, ExecutionStatus::Canceled) {
        return Err(SplitupError::InvalidExecutionStatus);
    }
    if task_index >= e.task_statuses.len() as u64 {
        return Err(SplitupError::NotFound);
    }
    let idx = task_index as usize;
    if !(matches!(e.task_statuses[idx].status, TaskExecutionState::Assigned) || matches!(
        e.task_statuses[idx].status,
        TaskExecutionState::InProgress,
    )) {
        return Err(SplitupError::InvalidExecutionStatus);
    }
    if !(reporter == e.task_statuses[idx].assigned_node) {
        return Err(SplitupError::Unauthorized);
    }
    if !output_uris_capacity_ok(&output_uris) {
        return Err(SplitupError::CapacityExceeded);
    }
    let random_number = get_random_number(entropy);
    let sampled = random_number <= SAMPLING_THRESHOLD;
    let task_id = e.task_statuses[idx].task_id;
    e.task_statuses[idx].output_uris = output_uris;
    e.task_statuses[idx].status = TaskExecutionState::Completed;
    proof {
        assert(e.task_statuses@ =~= old(e).task_statuses@.update(
            idx as int,
            completed_status(old(e).task_statuses@[idx as int], output_uris),
        ));
    }
    let done = check_all_completed(&e.task_statuses);
    if done {
        e.overall_status = ExecutionStatus::Completed;
        return Ok(
            CompletionOutcome {
                sampled,
                all_completed: true,
                begin_indices: Vec::new(),
                model_output_ready: false,
            },
        );
    }
    let mut begin_indices: Vec<u64> = Vec::new();
    let mut model_output_ready = false;
    let m = model.connections.len();
    let mut c: usize = 0;
    while c < m
        invariant
            m == model.connections@.len(),
            0 <= c <= m,
            begin_indices@ == begin_targets(
                model.connections@.take(c as int),
                e.task_statuses@,
                task_id,
            ),
            model_output_ready == exists|j: int|
                0 <= j < c && (#[trigger] model.connections@[j]).source_task_id == task_id
                    && model.connections@[j].destination_task_id == 0,
        decreases m - c,
    {
        proof {
            assert(model.connections@.take(c + 1).drop_last() =~= model.connections@.take(c as int));
            assert(model.connections@.take(c + 1).last() == model.connections@[c as int]);
        }
        if model.connections[c].source_task_id == task_id {
            let dest = model.connections[c].destination_task_id;
            if dest != 0 {
                match find_status_index(&e.task_statuses, dest) {
                    Some(d) => {
                        begin_indices.push(d as u64);
                    },
                    None => (),
                }
            } else {
                model_output_ready = true;
            }
        }
        c = c + 1;
    }
    proof {
        assert(model.connections@.take(m as int) =~= model.connections@);
    }
    Ok(CompletionOutcome { sampled, all_completed: false, begin_indices, model_output_ready })
}

/// Checks a reported output list against the persisted bounds.
fn output_uris_capacity_ok(us: &Vec<String>) -> (r: bool)
    ensures
        r == uris_within_capacity(us@),
{
    if us.len() > MAX_OUTPUT_URIS {
        return false;
    }
    let n = us.len();
    let mut i: usize = 0;
    while i < n
        invariant
            n == us@.len(),
            0 <= i <= n,
            forall|j: int| 0 <= j < i ==> (#[trigger] us@[j])@.len() <= MAX_EXEC_URI_LEN,
            n <= MAX_OUTPUT_URIS,
        decreases n - i,
    {
        if us[i].as_str().unicode_len() > MAX_EXEC_URI_LEN {
            return false;
        }
        i = i + 1;
    }
    true
}

/// Cancels the execution. Only the original requestor may cancel, and not
/// after the execution already completed successfully. Cancellation is a
/// terminal status transition, not a retraction of dispatched work: once
/// canceled, every later assign or complete transition is rejected.
pub fn cancel_execution(e: &mut ModelExecution, caller: AccountId) -> (r: Result<(), SplitupError>)
    ensures
        r is Ok <==> caller == old(e).requestor && !(old(e).overall_status is Completed),
        r is Ok ==> final(e).overall_status is Canceled && final(e).task_statuses@ == old(
            e,
        ).task_statuses@ && same_execution_header(*final(e), *old(e)),
        r is Err ==> *final(e) == *old(e) && r->Err_0 == (if caller != old(e).requestor {
            SplitupError::Unauthorized
        } else {
            SplitupError::InvalidExecutionStatus
        }),
{
    if !(caller == e.requestor) {
        return Err(SplitupError::Unauthorized);
    }
    if matches!(e.overall_status, ExecutionStatus::Completed) {
        return Err(SplitupError::InvalidExecutionStatus);
    }
    e.overall_status = ExecutionStatus::Canceled;
    Ok(())
}

} // verus!

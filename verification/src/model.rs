//! Model registration and graph validation.
//!
//! A model is a directed graph: its tasks are the vertices and its
//! connections the edges, each edge carrying the tensor that flows along it.
//! An endpoint of zero denotes the model boundary (a model input on the
//! source side, a model output on the destination side). Before a model is
//! persisted the graph is checked for referential integrity — every non-zero
//! endpoint must appear in the model's task list and resolve to a registered
//! task — and for edge uniqueness over the
//! (source, output index, destination, input index) key.

use crate::task::{tensor_spec_within_capacity, TensorSpec};
use vstd::prelude::*;

verus! {

/// Most tasks a model may list.
pub const MAX_TASKS: usize = 16;

/// Most connections a model may list.
pub const MAX_CONNECTIONS: usize = 64;

/// Longest model name, in characters.
pub const MAX_NAME_LEN: usize = 64;

/// Longest model description, in characters.
pub const MAX_MODEL_DESC_LEN: usize = 256;

/// Longest creator tag, in characters.
pub const MAX_CREATOR_LEN: usize = 64;

/// A directed data-flow edge between two tasks of a model.
#[derive(Debug)]
pub struct TaskConnection {
    /// Source task, or zero for a model input.
    pub source_task_id: u64,
    /// Destination task, or zero for a model output.
    pub destination_task_id: u64,
    /// Index into the source task's outputs.
    pub source_output_index: u64,
    /// Index into the destination task's inputs.
    pub dest_input_index: u64,
    /// The tensor flowing along this edge.
    pub tensor_spec: TensorSpec,
}

/// Errors surfaced while registering a model.
#[derive(Clone, Copy, Debug, PartialEq, Eq, Structural)]
pub enum ModelError {
    /// The storage slot for this model already holds an initialized model.
    /// Raised by the storage layer's create-once gate, outside this crate.
    AlreadyInitialized,
    /// A connection endpoint or a listed task does not resolve to a task of
    /// this model.
    InvalidDependency,
    /// Two connections share the same source/destination/index key.
    DuplicateConnection,
    /// A field exceeds its bounded cardinality and cannot be persisted.
    CapacityExceeded,
}

/// Registration payload for a model.
#[derive(Debug)]
pub struct ModelInfoInput {
    pub id: u64,
    pub name: String,
    pub description: String,
    pub creator: String,
    pub task_ids: Vec<u64>,
    pub connections: Vec<TaskConnection>,
}

/// A registered model: metadata, the ordered task list and the connection
/// graph. Immutable after registration.
#[derive(Debug)]
pub struct ModelInfo {
    pub id: u64,
    pub name: String,
    pub description: String,
    pub creator: String,
    pub task_ids: Vec<u64>,
    pub connections: Vec<TaskConnection>,
}

/// The identifying 4-tuple of a connection: no two edges of a valid model
/// share it.
pub open spec fn conn_key(c: TaskConnection) -> (u64, u64, u64, u64) {
    (c.source_task_id, c.source_output_index, c.destination_task_id, c.dest_input_index)
}

/// An endpoint resolves within a task list when it is the model boundary
/// (zero) or one of the listed tasks.
pub open spec fn endpoint_resolves(task_ids: Seq<u64>, id: u64) -> bool {
    id == 0 || task_ids.contains(id)
}

/// Both endpoints of a connection resolve within the task list.
pub open spec fn conn_endpoints_ok(task_ids: Seq<u64>, c: TaskConnection) -> bool {
    &&& endpoint_resolves(task_ids, c.source_task_id)
    &&& endpoint_resolves(task_ids, c.destination_task_id)
}

/// Graph closure: every connection's endpoints resolve within the task list.
pub open spec fn connections_closed(task_ids: Seq<u64>, conns: Seq<TaskConnection>) -> bool {
    forall|i: int| 0 <= i < conns.len() ==> conn_endpoints_ok(task_ids, #[trigger] conns[i])
}

/// Edge uniqueness: no two connections share the same key.
pub open spec fn no_duplicate_connections(conns: Seq<TaskConnection>) -> bool {
    forall|i: int, j: int|
        0 <= i < j < conns.len() ==> conn_key(#[trigger] conns[i]) != conn_key(#[trigger] conns[j])
}

/// Structural well-formedness of a model graph: closure plus edge uniqueness.
pub open spec fn graph_ok(task_ids: Seq<u64>, conns: Seq<TaskConnection>) -> bool {
    &&& connections_closed(task_ids, conns)
    &&& no_duplicate_connections(conns)
}

/// The connection at `i` repeats the key of an earlier connection.
pub open spec fn dup_before(conns: Seq<TaskConnection>, i: int) -> bool {
    exists|j: int| 0 <= j < i && conn_key(#[trigger] conns[j]) == conn_key(conns[i])
}

/// The error a left-to-right scan of the connection list reports, starting at
/// position `i`: a dangling endpoint is reported before a repeated key. Only
/// meaningful when some violation exists at or after `i`.
pub open spec fn graph_scan_error(task_ids: Seq<u64>, conns: Seq<TaskConnection>, i: int) -> ModelError
    decreases conns.len() - i,
{
    if i < 0 || i >= conns.len() {
        ModelError::InvalidDependency
    } else if !conn_endpoints_ok(task_ids, conns[i]) {
        ModelError::InvalidDependency
    } else if dup_before(conns, i) {
        ModelError::DuplicateConnection
    } else {
        graph_scan_error(task_ids, conns, i + 1)
    }
}

/// The error graph validation reports for an ill-formed graph.
pub open spec fn graph_error(task_ids: Seq<u64>, conns: Seq<TaskConnection>) -> ModelError {
    graph_scan_error(task_ids, conns, 0)
}

/// Linear scan of a task-id list for one id.
pub fn contains_id(ids: &Vec<u64>, x: u64) -> (r: bool)
    ensures
        r == ids@.contains(x),
{
    let n = ids.len();
    let mut i: usize = 0;
    while i < n
        invariant
            n == ids@.len(),
            0 <= i <= n,
            forall|j: int| 0 <= j < i ==> ids@[j] != x,
        decreases n - i,
    {
        if ids[i] == x {
            return true;
        }
        i = i + 1;
    }
    false
}

/// Gate on the candidate graph alone: every connection's endpoints must
/// resolve within the candidate task list, and no two connections may share
/// the same key. Fails fast on the first violating connection, a dangling
/// endpoint reported before a repeated key.
pub fn validate_model_dependencies(
    task_ids: &Vec<u64>,
    connections: &Vec<TaskConnection>,
) -> (r: Result<(), ModelError>)
    ensures
        r is Ok <==> graph_ok(task_ids@, connections@),
        r is Err ==> r == Err::<(), ModelError>(graph_error(task_ids@, connections@)),
{
    let n = connections.len();
    let mut i: usize = 0;
    while i < n
        invariant
            n == connections@.len(),
            0 <= i <= n,
            forall|j: int| 0 <= j < i ==> conn_endpoints_ok(task_ids@, #[trigger] connections@[j]),
            forall|j: int| 0 <= j < i ==> !dup_before(connections@, j),
            graph_scan_error(task_ids@, connections@, 0) == graph_scan_error(
                task_ids@,
                connections@,
                i as int,
            ),
        decreases n - i,
    {
        let src_ok = connections[i].source_task_id == 0 || contains_id(
            task_ids,
            connections[i].source_task_id,
        );
        if !src_ok {
            return Err(ModelError::InvalidDependency);
        }
        let dst_ok = connections[i].destination_task_id == 0 || contains_id(
            task_ids,
            connections[i].destination_task_id,
        );
        if !dst_ok {
            return Err(ModelError::InvalidDependency);
        }
        let mut k: usize = 0;
        while k < i
            invariant
                n == connections@.len(),
                0 <= k <= i < n,
                conn_endpoints_ok(task_ids@, connections@[i as int]),
                graph_scan_error(task_ids@, connections@, 0) == graph_scan_error(
                    task_ids@,
                    connections@,
                    i as int,
                ),
                forall|j: int| 0 <= j < k ==> conn_key(#[trigger] connections@[j]) != conn_key(
                    connections@[i as int],
                ),
            decreases i - k,
        {
            if connections[k].source_task_id == connections[i].source_task_id
                && connections[k].source_output_index == connections[i].source_output_index
                && connections[k].destination_task_id == connections[i].destination_task_id
                && connections[k].dest_input_index == connections[i].dest_input_index {
                proof {
                    assert(dup_before(connections@, i as int));
                }
                return Err(ModelError::DuplicateConnection);
            }
            k = k + 1;
        }
        i = i + 1;
    }
    proof {
        assert forall|a: int, b: int| 0 <= a < b < connections@.len() implies conn_key(
            #[trigger] connections@[a],
        ) != conn_key(#[trigger] connections@[b]) by {
            if conn_key(connections@[a]) == conn_key(connections@[b]) {
                assert(dup_before(connections@, b));
            }
        }
    }
    Ok(())
}

/// Every listed task id resolves to a registered, initialized task.
pub open spec fn tasks_resolve(task_ids: Seq<u64>, registered: Seq<u64>) -> bool {
    forall|i: int| 0 <= i < task_ids.len() ==> registered.contains(#[trigger] task_ids[i])
}

/// Every non-zero connection endpoint resolves to a registered, initialized
/// task.
pub open spec fn conn_endpoints_resolve(conns: Seq<TaskConnection>, registered: Seq<u64>) -> bool {
    forall|i: int|
        0 <= i < conns.len() ==> {
            &&& (#[trigger] conns[i]).source_task_id != 0 ==> registered.contains(
                conns[i].source_task_id,
            )
            &&& conns[i].destination_task_id != 0 ==> registered.contains(
                conns[i].destination_task_id,
            )
        }
}

/// Gate against the task registry: `registered` lists the ids of the tasks
/// that exist and are initialized, and every task the model lists, as well as
/// every non-zero connection endpoint, must be among them.
pub fn validate_task_interfaces(
    task_ids: &Vec<u64>,
    connections: &Vec<TaskConnection>,
    registered: &Vec<u64>,
) -> (r: Result<(), ModelError>)
    ensures
        r is Ok <==> tasks_resolve(task_ids@, registered@) && conn_endpoints_resolve(
            connections@,
            registered@,
        ),
        r is Err ==> r == Err::<(), ModelError>(ModelError::InvalidDependency),
{
    let n = task_ids.len();
    let mut i: usize = 0;
    while i < n
        invariant
            n == task_ids@.len(),
            0 <= i <= n,
            forall|j: int| 0 <= j < i ==> registered@.contains(#[trigger] task_ids@[j]),
        decreases n - i,
    {
        if !contains_id(registered, task_ids[i]) {
            return Err(ModelError::InvalidDependency);
        }
        i = i + 1;
    }
    let m = connections.len();
    let mut c: usize = 0;
    while c < m
        invariant
            m == connections@.len(),
            0 <= c <= m,
            forall|j: int|
                0 <= j < c ==> {
                    &&& (#[trigger] connections@[j]).source_task_id != 0 ==> registered@.contains(
                        connections@[j].source_task_id,
                    )
                    &&& connections@[j].destination_task_id != 0 ==> registered@.contains(
                        connections@[j].destination_task_id,
                    )
                },
        decreases m - c,
    {
        if connections[c].source_task_id != 0 && !contains_id(
            registered,
            connections[c].source_task_id,
        ) {
            return Err(ModelError::InvalidDependency);
        }
        if connections[c].destination_task_id != 0 && !contains_id(
            registered,
            connections[c].destination_task_id,
        ) {
            return Err(ModelError::InvalidDependency);
        }
        c = c + 1;
    }
    Ok(())
}

/// The model a registration payload persists as: the fields carry over
/// unchanged.
pub open spec fn model_of_input(m: ModelInfoInput) -> ModelInfo {
    ModelInfo {
        id: m.id,
        name: m.name,
        description: m.description,
        creator: m.creator,
        task_ids: m.task_ids,
        connections: m.connections,
    }
}

/// The whole registration payload fits the persisted layout's bounds.
pub open spec fn model_input_within_capacity(m: ModelInfoInput) -> bool {
    &&& m.name@.len() <= MAX_NAME_LEN
    &&& m.description@.len() <= MAX_MODEL_DESC_LEN
    &&& m.creator@.len() <= MAX_CREATOR_LEN
    &&& m.task_ids@.len() <= MAX_TASKS
    &&& m.connections@.len() <= MAX_CONNECTIONS
    &&& forall|i: int|
        0 <= i < m.connections@.len() ==> tensor_spec_within_capacity(
            (#[trigger] m.connections@[i]).tensor_spec,
        )
}

/// A registration payload passes every validation gate: it fits the persisted
/// bounds, its graph is closed and duplicate-free, and everything it names
/// resolves within the registry.
pub open spec fn model_input_valid(m: ModelInfoInput, registered: Seq<u64>) -> bool {
    &&& model_input_within_capacity(m)
    &&& graph_ok(m.task_ids@, m.connections@)
    &&& tasks_resolve(m.task_ids@, registered)
    &&& conn_endpoints_resolve(m.connections@, registered)
}

/// A registered model's graph invariant: every non-zero endpoint resolves
/// within its own task list and no two connections share a key. Established
/// at registration and preserved forever, since a model is immutable.
pub open spec fn model_graph_ok(m: ModelInfo) -> bool {
    graph_ok(m.task_ids@, m.connections@)
}

impl From<ModelInfoInput> for ModelInfo {
    fn from(input: ModelInfoInput) -> (r: ModelInfo) {
        ModelInfo {
            id: input.id,
            name: input.name,
            description: input.description,
            creator: input.creator,
            task_ids: input.task_ids,
            connections: input.connections,
        }
    }
}

impl vstd::std_specs::convert::FromSpecImpl<ModelInfoInput> for ModelInfo {
    open spec fn obeys_from_spec() -> bool {
        true
    }

    open spec fn from_spec(m: ModelInfoInput) -> ModelInfo {
        model_of_input(m)
    }
}

/// Gate before a model is persisted: rejects oversize payloads, then checks
/// the graph's closure and edge uniqueness, then resolves every reference
/// against the registry (`registered` lists the initialized task ids). On
/// success returns the model exactly as it will be stored, with its graph
/// invariant established; no partial model is ever produced.
pub fn register_model(model_info: ModelInfoInput, registered: &Vec<u64>) -> (r: Result<
    ModelInfo,
    ModelError,
>)
    ensures
        r is Ok <==> model_input_valid(model_info, registered@),
        r is Ok ==> r->Ok_0 == model_of_input(model_info) && model_graph_ok(r->Ok_0),
        r is Err ==> r->Err_0 == (if !model_input_within_capacity(model_info) {
            ModelError::CapacityExceeded
        } else if !graph_ok(model_info.task_ids@, model_info.connections@) {
            graph_error(model_info.task_ids@, model_info.connections@)
        } else {
            ModelError::InvalidDependency
        }),
{
    if !model_capacity_ok(&model_info) {
        return Err(ModelError::CapacityExceeded);
    }
    match validate_model_dependencies(&model_info.task_ids, &model_info.connections) {
        Ok(()) => (),
        Err(e) => {
            return Err(e);
        },
    }
    match validate_task_interfaces(&model_info.task_ids, &model_info.connections, registered) {
        Ok(()) => (),
        Err(e) => {
            return Err(e);
        },
    }
    Ok(ModelInfo::from(model_info))
}

/// Checks every bounded cardinality of a registration payload.
fn model_capacity_ok(m: &ModelInfoInput) -> (r: bool)
    ensures
        r == model_input_within_capacity(*m),
{
    if m.name.as_str().unicode_len() > MAX_NAME_LEN {
        return false;
    }
    if m.description.as_str().unicode_len() > MAX_MODEL_DESC_LEN {
        return false;
    }
    if m.creator.as_str().unicode_len() > MAX_CREATOR_LEN {
        return false;
    }
    if m.task_ids.len() > MAX_TASKS || m.connections.len() > MAX_CONNECTIONS {
        return false;
    }
    let n = m.connections.len();
    let mut i: usize = 0;
    while i < n
        invariant
            n == m.connections@.len(),
            0 <= i <= n,
            forall|j: int|
                0 <= j < i ==> tensor_spec_within_capacity(
                    (#[trigger] m.connections@[j]).tensor_spec,
                ),
        decreases n - i,
    {
        if m.connections[i].tensor_spec.shape.len() > crate::task::MAX_SHAPE_LEN {
            return false;
        }
        if m.connections[i].tensor_spec.uri.as_str().unicode_len() > crate::task::MAX_URI_LEN {
            return false;
        }
        i = i + 1;
    }
    true
}

} // verus!

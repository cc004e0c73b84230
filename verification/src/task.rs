//! Task registration.
//!
//! A task is an atomic unit of model computation with a fixed input/output
//! tensor interface and an immutable weight location. Registration validates
//! the interface (non-empty tensor lists, non-empty shapes and location
//! references) and the payload's cardinality bounds; a task is immutable once
//! registered, so this is the only operation over it.

use vstd::prelude::*;

verus! {

/// Most dimension sizes a tensor shape may carry.
pub const MAX_SHAPE_LEN: usize = 8;

/// Longest location reference a tensor may carry, in characters.
pub const MAX_URI_LEN: usize = 128;

/// Most input tensor specifications a task may declare.
pub const MAX_INPUTS: usize = 8;

/// Most output tensor specifications a task may declare.
pub const MAX_OUTPUTS: usize = 8;

/// Longest task description, in characters.
pub const MAX_DESC_LEN: usize = 256;

/// Longest weight location reference, in characters.
pub const MAX_WEIGHT_URI_LEN: usize = 128;

/// Shape, data type and materialized-data location of one tensor.
#[derive(Debug)]
pub struct TensorSpec {
    /// Data type tag.
    pub dtype: u8,
    /// Ordered dimension sizes.
    pub shape: Vec<u64>,
    /// Location reference to the tensor's materialized data.
    pub uri: String,
}

/// Errors surfaced while registering a task.
#[derive(Clone, Copy, Debug, PartialEq, Eq, Structural)]
pub enum TaskError {
    /// The storage slot already holds an initialized task.
    /// Raised by the storage layer's create-once gate, outside this crate.
    AlreadyInitialized,
    /// A task declared no input or no output tensors.
    EmptyTensorSpec,
    /// A tensor specification carries an empty shape.
    InvalidShape,
    /// A tensor specification carries an empty data-location reference.
    MissingTensorUri,
    /// The weight location reference is empty.
    MissingWeightUri,
    /// A field exceeds its bounded cardinality and cannot be persisted.
    CapacityExceeded,
}

/// Registration payload for a task.
#[derive(Debug)]
pub struct TaskInfoInput {
    pub id: u64,
    pub model_id: u64,
    pub description: String,
    pub vram_requirement: u64,
    pub compute_units: u64,
    pub inputs: Vec<TensorSpec>,
    pub outputs: Vec<TensorSpec>,
    pub weight_uri: String,
}

/// A registered task: identity, owning model, resource requirements,
/// tensor interface and weight location. Immutable after registration.
#[derive(Debug)]
pub struct TaskInfo {
    pub id: u64,
    pub model_id: u64,
    pub description: String,
    pub vram_requirement: u64,
    pub compute_units: u64,
    pub inputs: Vec<TensorSpec>,
    pub outputs: Vec<TensorSpec>,
    pub weight_uri: String,
}

/// A tensor specification is well-formed when its shape and its data
/// location are both non-empty.
pub open spec fn tensor_spec_ok(t: TensorSpec) -> bool {
    &&& t.shape@.len() > 0
    &&& t.uri@.len() > 0
}

/// A tensor specification fits the persisted layout's bounds.
pub open spec fn tensor_spec_within_capacity(t: TensorSpec) -> bool {
    &&& t.shape@.len() <= MAX_SHAPE_LEN
    &&& t.uri@.len() <= MAX_URI_LEN
}

/// A tensor interface list is well-formed: non-empty, every entry well-formed.
pub open spec fn tensor_list_ok(ts: Seq<TensorSpec>) -> bool {
    &&& ts.len() > 0
    &&& forall|i: int| 0 <= i < ts.len() ==> tensor_spec_ok(#[trigger] ts[i])
}

/// The error a left-to-right scan of a tensor list reports, starting at
/// position `i`: an empty shape is reported before an empty location.
/// Only meaningful when some entry at or after `i` is ill-formed.
pub open spec fn tensor_scan_error(ts: Seq<TensorSpec>, i: int) -> TaskError
    decreases ts.len() - i,
{
    if i < 0 || i >= ts.len() {
        TaskError::EmptyTensorSpec
    } else if ts[i].shape@.len() == 0 {
        TaskError::InvalidShape
    } else if ts[i].uri@.len() == 0 {
        TaskError::MissingTensorUri
    } else {
        tensor_scan_error(ts, i + 1)
    }
}

/// The error validation reports for an ill-formed tensor list.
pub open spec fn tensor_list_error(ts: Seq<TensorSpec>) -> TaskError {
    if ts.len() == 0 {
        TaskError::EmptyTensorSpec
    } else {
        tensor_scan_error(ts, 0)
    }
}

/// Checks that a tensor interface list is non-empty and that every entry has
/// a non-empty shape and a non-empty data location. Fails on the first
/// violation, shape before location.
pub fn validate_tensor_specs(tensors: &Vec<TensorSpec>) -> (r: Result<(), TaskError>)
    ensures
        r is Ok <==> tensor_list_ok(tensors@),
        r is Err ==> r == Err::<(), TaskError>(tensor_list_error(tensors@)),
{
    if tensors.is_empty() {
        return Err(TaskError::EmptyTensorSpec);
    }
    let n = tensors.len();
    let mut i: usize = 0;
    while i < n
        invariant
            n == tensors@.len(),
            0 <= i <= n,
            forall|j: int| 0 <= j < i ==> tensor_spec_ok(#[trigger] tensors@[j]),
            tensor_scan_error(tensors@, 0) == tensor_scan_error(tensors@, i as int),
        decreases n - i,
    {
        if tensors[i].shape.is_empty() {
            return Err(TaskError::InvalidShape);
        }
        if tensors[i].uri.as_str().is_empty() {
            return Err(TaskError::MissingTensorUri);
        }
        i = i + 1;
    }
    Ok(())
}

/// Checks that the weight location reference is non-empty.
pub fn validate_weight_uri(uri: &str) -> (r: Result<(), TaskError>)
    ensures
        r is Ok <==> uri@.len() > 0,
        r is Err ==> r == Err::<(), TaskError>(TaskError::MissingWeightUri),
{
    if uri.is_empty() {
        return Err(TaskError::MissingWeightUri);
    }
    Ok(())
}

/// Every entry of a tensor list fits the persisted bounds.
pub open spec fn tensor_list_within_capacity(ts: Seq<TensorSpec>) -> bool {
    forall|i: int| 0 <= i < ts.len() ==> tensor_spec_within_capacity(#[trigger] ts[i])
}

/// The whole registration payload fits the persisted layout's bounds.
pub open spec fn task_input_within_capacity(t: TaskInfoInput) -> bool {
    &&& t.description@.len() <= MAX_DESC_LEN
    &&& t.weight_uri@.len() <= MAX_WEIGHT_URI_LEN
    &&& t.inputs@.len() <= MAX_INPUTS
    &&& t.outputs@.len() <= MAX_OUTPUTS
    &&& tensor_list_within_capacity(t.inputs@)
    &&& tensor_list_within_capacity(t.outputs@)
}

/// The task a registration payload persists as: the fields carry over
/// unchanged.
pub open spec fn task_of_input(t: TaskInfoInput) -> TaskInfo {
    TaskInfo {
        id: t.id,
        model_id: t.model_id,
        description: t.description,
        vram_requirement: t.vram_requirement,
        compute_units: t.compute_units,
        inputs: t.inputs,
        outputs: t.outputs,
        weight_uri: t.weight_uri,
    }
}

/// A registration payload passes every validation gate.
pub open spec fn task_input_valid(t: TaskInfoInput) -> bool {
    &&& task_input_within_capacity(t)
    &&& tensor_list_ok(t.inputs@)
    &&& tensor_list_ok(t.outputs@)
    &&& t.weight_uri@.len() > 0
}

impl From<TaskInfoInput> for TaskInfo {
    fn from(input: TaskInfoInput) -> (r: TaskInfo) {
        TaskInfo {
            id: input.id,
            model_id: input.model_id,
            description: input.description,
            vram_requirement: input.vram_requirement,
            compute_units: input.compute_units,
            inputs: input.inputs,
            outputs: input.outputs,
            weight_uri: input.weight_uri,
        }
    }
}

impl vstd::std_specs::convert::FromSpecImpl<TaskInfoInput> for TaskInfo {
    open spec fn obeys_from_spec() -> bool {
        true
    }

    open spec fn from_spec(t: TaskInfoInput) -> TaskInfo {
        task_of_input(t)
    }
}

/// Gate before a task is persisted: rejects oversize payloads, then validates
/// the input interface, the output interface and the weight location, in that
/// order; on success returns the task exactly as it will be stored. No
/// partial task is ever produced.
pub fn register_task(task_info: TaskInfoInput) -> (r: Result<TaskInfo, TaskError>)
    ensures
        r is Ok <==> task_input_valid(task_info),
        r is Ok ==> r->Ok_0 == task_of_input(task_info),
        r is Err ==> r->Err_0 == (if !task_input_within_capacity(task_info) {
            TaskError::CapacityExceeded
        } else if !tensor_list_ok(task_info.inputs@) {
            tensor_list_error(task_info.inputs@)
        } else if !tensor_list_ok(task_info.outputs@) {
            tensor_list_error(task_info.outputs@)
        } else {
            TaskError::MissingWeightUri
        }),
{
    if !task_capacity_ok(&task_info) {
        return Err(TaskError::CapacityExceeded);
    }
    match validate_tensor_specs(&task_info.inputs) {
        Ok(()) => (),
        Err(e) => {
            return Err(e);
        },
    }
    match validate_tensor_specs(&task_info.outputs) {
        Ok(()) => (),
        Err(e) => {
            return Err(e);
        },
    }
    match validate_weight_uri(task_info.weight_uri.as_str()) {
        Ok(()) => (),
        Err(e) => {
            return Err(e);
        },
    }
    Ok(TaskInfo::from(task_info))
}

/// Checks every bounded cardinality of a registration payload.
fn task_capacity_ok(t: &TaskInfoInput) -> (r: bool)
    ensures
        r == task_input_within_capacity(*t),
{
    if t.description.as_str().unicode_len() > MAX_DESC_LEN {
        return false;
    }
    if t.weight_uri.as_str().unicode_len() > MAX_WEIGHT_URI_LEN {
        return false;
    }
    if t.inputs.len() > MAX_INPUTS || t.outputs.len() > MAX_OUTPUTS {
        return false;
    }
    if !tensor_capacity_ok(&t.inputs) || !tensor_capacity_ok(&t.outputs) {
        return false;
    }
    true
}

/// Checks every entry of a tensor list against the persisted bounds.
fn tensor_capacity_ok(ts: &Vec<TensorSpec>) -> (r: bool)
    ensures
        r == tensor_list_within_capacity(ts@),
{
    let n = ts.len();
    let mut i: usize = 0;
    while i < n
        invariant
            n == ts@.len(),
            0 <= i <= n,
            forall|j: int| 0 <= j < i ==> tensor_spec_within_capacity(#[trigger] ts@[j]),
        decreases n - i,
    {
        if ts[i].shape.len() > MAX_SHAPE_LEN {
            return false;
        }
        if ts[i].uri.as_str().unicode_len() > MAX_URI_LEN {
            return false;
        }
        i = i + 1;
    }
    true
}

} // verus!

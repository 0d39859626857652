//! Descriptions of agents and of the accelerators an agent runtime hands out.
use vstd::prelude::*;

verus! {

/// Identifier of an agent.
pub type AgentId = usize;

/// Identifier of an inference task.
pub type TaskId = usize;

/// Identifier of an accelerator in an agent runtime's pool.
pub type NPUId = usize;

#[derive(Debug, Clone, PartialEq)]
pub enum AgentStatus {
    Initializing,
    Ready,
    Busy,
    Error(String),
    Shutdown,
}

/// What an agent can do.
#[derive(Debug, Clone)]
pub struct AgentCapabilities {
    pub can_inference: bool,
    pub can_training: bool,
    pub supported_models: Vec<String>,
    pub max_tensor_size: usize,
    pub preferred_npu: Option<NPUId>,
}

impl Default for AgentCapabilities {
    fn default() -> (r: Self)
        ensures
            !r.can_inference,
            !r.can_training,
            r.supported_models@.len() == 0,
            r.max_tensor_size == 0,
            r.preferred_npu is None,
    {
        AgentCapabilities {
            can_inference: false,
            can_training: false,
            supported_models: Vec::new(),
            max_tensor_size: 0,
            preferred_npu: None,
        }
    }
}

/// Priority of an agent's inference request; later variants are more urgent.
#[derive(Debug, Clone, Copy, PartialEq, Eq, PartialOrd, Ord, Structural)]
pub enum InferencePriority {
    Low,
    Normal,
    High,
    Realtime,
}

/// Result of an inference operation; latency in milliseconds.
#[derive(Debug, Clone)]
pub struct InferenceResult {
    pub task_id: TaskId,
    pub success: bool,
    pub output_data: Vec<u8>,
    pub latency_ms: u64,
    pub error: Option<String>,
}

#[derive(Debug, Clone, Copy, PartialEq, Eq, Structural)]
pub enum Precision {
    FP32,
    FP16,
    INT8,
    INT4,
}

/// What one pooled accelerator can do.
#[derive(Debug, Clone)]
pub struct NPUCapabilities {
    pub max_memory_mb: u64,
    pub supported_precision: Vec<Precision>,
    pub max_batch_size: usize,
    pub ops_per_second: u64,
}

impl Default for NPUCapabilities {
    fn default() -> (r: Self)
        ensures
            r.max_memory_mb == 0,
            r.supported_precision@.len() == 0,
            r.max_batch_size == 0,
            r.ops_per_second == 0,
    {
        NPUCapabilities { max_memory_mb: 0, supported_precision: Vec::new(), max_batch_size: 0, ops_per_second: 0 }
    }
}

#[derive(Debug, Clone, PartialEq)]
pub enum NPUStatus {
    Idle,
    Busy,
    Error(String),
    Maintenance,
}

/// One accelerator of an agent runtime's pool.
#[derive(Debug, Clone)]
pub struct NPUDevice {
    pub id: NPUId,
    pub name: String,
    pub capabilities: NPUCapabilities,
    pub status: NPUStatus,
    pub current_model: Option<String>,
    pub allocated_to: Option<AgentId>,
}

} // verus!

verus! {

/// A task an agent hands to the runtime; latency bound in milliseconds, submission time
/// in Unix seconds.
#[derive(Debug, Clone)]
pub struct InferenceTask {
    pub task_id: TaskId,
    pub agent_id: AgentId,
    pub model_id: String,
    pub input_data: Vec<u8>,
    pub priority: InferencePriority,
    pub max_latency_ms: Option<u64>,
    pub submitted_at: u64,
}

/// An accelerator that can be handed to an agent: idle and allocated to nobody.
pub open spec fn is_free(d: NPUDevice) -> bool {
    d.status is Idle && d.allocated_to is None
}

/// The accelerators of an agent runtime, and the tasks waiting for them.
#[derive(Debug, Clone)]
pub struct NPUPool {
    pub devices: Vec<NPUDevice>,
    pub task_queue: Vec<InferenceTask>,
}

impl NPUPool {
    pub fn new() -> (r: Self)
        ensures
            r.devices@.len() == 0,
            r.task_queue@.len() == 0,
    {
        NPUPool { devices: Vec::new(), task_queue: Vec::new() }
    }

    pub fn add_device(&mut self, device: NPUDevice)
        ensures
            final(self).devices@ == old(self).devices@.push(device),
            final(self).task_queue == old(self).task_queue,
    {
        self.devices.push(device);
    }

    /// Hands the first free accelerator to `agent_id` and marks it busy.
    pub fn allocate_npu(&mut self, agent_id: AgentId) -> (r: Option<NPUId>)
        ensures
            final(self).task_queue == old(self).task_queue,
            r is None <==> forall|i: int| 0 <= i < old(self).devices@.len() ==> !is_free(#[trigger] old(self).devices@[i]),
            r is None ==> final(self).devices@ == old(self).devices@,
            r matches Some(id) ==> exists|i: int| {
                &&& 0 <= i < old(self).devices@.len()
                &&& is_free(old(self).devices@[i])
                &&& forall|j: int| 0 <= j < i ==> !is_free(#[trigger] old(self).devices@[j])
                &&& old(self).devices@[i].id == id
                &&& final(self).devices@ == old(self).devices@.update(
                    i,
                    NPUDevice { status: NPUStatus::Busy, allocated_to: Some(agent_id), ..old(self).devices@[i] },
                )
            },
    {
        let mut i: usize = 0;
        while i < self.devices.len()
            invariant
                0 <= i <= self.devices@.len(),
                *self == *old(self),
                forall|j: int| 0 <= j < i ==> !is_free(#[trigger] self.devices@[j]),
            decreases self.devices@.len() - i,
        {
            let idle = match self.devices[i].status {
                NPUStatus::Idle => true,
                _ => false,
            };
            if idle && self.devices[i].allocated_to.is_none() {
                let id = self.devices[i].id;
                let ghost before = self.devices@;
                self.devices[i].allocated_to = Some(agent_id);
                self.devices[i].status = NPUStatus::Busy;
                assert(self.devices@ =~= before.update(
                    i as int,
                    NPUDevice { status: NPUStatus::Busy, allocated_to: Some(agent_id), ..before[i as int] },
                ));
                return Some(id);
            }
            i = i + 1;
        }
        None
    }

    /// Returns the accelerator `npu_id` to the pool: idle, allocated to nobody, with no
    /// model. `false` if the pool has no such accelerator.
    pub fn deallocate_npu(&mut self, npu_id: NPUId) -> (r: bool)
        ensures
            final(self).task_queue == old(self).task_queue,
            r <==> exists|i: int| 0 <= i < old(self).devices@.len() && (#[trigger] old(self).devices@[i]).id == npu_id,
            !r ==> final(self).devices@ == old(self).devices@,
            r ==> exists|i: int| {
                &&& 0 <= i < old(self).devices@.len()
                &&& old(self).devices@[i].id == npu_id
                &&& forall|j: int| 0 <= j < i ==> (#[trigger] old(self).devices@[j]).id != npu_id
                &&& final(self).devices@ == old(self).devices@.update(
                    i,
                    NPUDevice { status: NPUStatus::Idle, allocated_to: None, current_model: None, ..old(self).devices@[i] },
                )
            },
    {
        let mut i: usize = 0;
        while i < self.devices.len()
            invariant
                0 <= i <= self.devices@.len(),
                *self == *old(self),
                forall|j: int| 0 <= j < i ==> (#[trigger] self.devices@[j]).id != npu_id,
            decreases self.devices@.len() - i,
        {
            if self.devices[i].id == npu_id {
                let ghost before = self.devices@;
                self.devices[i].allocated_to = None;
                self.devices[i].status = NPUStatus::Idle;
                self.devices[i].current_model = None;
                assert(self.devices@ =~= before.update(
                    i as int,
                    NPUDevice { status: NPUStatus::Idle, allocated_to: None, current_model: None, ..before[i as int] },
                ));
                return true;
            }
            i = i + 1;
        }
        false
    }
}

} // verus!

//! Core value types of the NPU hardware abstraction layer.
use vstd::prelude::*;

verus! {

/// Relies on `uuid::Uuid::new_v4` and uuid's `Display`, which writes the hyphenated
/// form: a random version-4 UUID as 36 characters.
#[verifier::external_body]
fn random_uuid_string() -> (r: String)
    ensures
        r@.len() == 36,
{
    uuid::Uuid::new_v4().to_string()
}

/// Identifier of one accelerator: caller-supplied for fixed devices, generated for
/// dynamically discovered ones.
#[derive(Debug, Clone, PartialEq, Eq, Hash)]
pub struct NpuDeviceId(pub String);

impl View for NpuDeviceId {
    type V = Seq<char>;

    open spec fn view(&self) -> Seq<char> {
        self.0@
    }
}

impl NpuDeviceId {
    pub fn new(id: &str) -> (r: Self)
        ensures
            r@ == id@,
    {
        NpuDeviceId(String::from_str(id))
    }

    pub fn as_str(&self) -> (r: &str)
        ensures
            r@ == self@,
    {
        self.0.as_str()
    }

    /// A fresh random identifier, for devices discovered at run time.
    pub fn generate() -> (r: Self)
        ensures
            r@.len() == 36,
    {
        NpuDeviceId(random_uuid_string())
    }

    /// A second identifier equal to this one.
    pub fn duplicate(&self) -> (r: Self)
        ensures
            r@ == self@,
    {
        NpuDeviceId(self.0.clone())
    }

    pub fn same_as(&self, other: &NpuDeviceId) -> (r: bool)
        ensures
            r == (self@ == other@),
    {
        self.0 == other.0
    }
}

/// Family of an accelerator; `Unknown` carries the name of a family without a variant.
#[derive(Debug, Clone, PartialEq, Eq, Hash)]
pub enum NpuDeviceType {
    AppleNeuralEngine,
    IntelNpu,
    NvidiaGpu,
    AmdGpu,
    QualcommHexagon,
    GoogleEdgeTpu,
    CpuFallback,
    Mock,
    Unknown(String),
}

pub open spec fn device_type_tag(t: NpuDeviceType) -> int {
    match t {
        NpuDeviceType::AppleNeuralEngine => 0,
        NpuDeviceType::IntelNpu => 1,
        NpuDeviceType::NvidiaGpu => 2,
        NpuDeviceType::AmdGpu => 3,
        NpuDeviceType::QualcommHexagon => 4,
        NpuDeviceType::GoogleEdgeTpu => 5,
        NpuDeviceType::CpuFallback => 6,
        NpuDeviceType::Mock => 7,
        NpuDeviceType::Unknown(_) => 8,
    }
}

/// Two device types name the same family: same variant, and for `Unknown` the same name.
pub open spec fn same_device_type(a: NpuDeviceType, b: NpuDeviceType) -> bool {
    &&& device_type_tag(a) == device_type_tag(b)
    &&& (a is Unknown ==> b is Unknown && a->Unknown_0@ == b->Unknown_0@)
}

impl NpuDeviceType {
    pub fn tag(&self) -> (r: u8)
        ensures
            r as int == device_type_tag(*self),
    {
        match self {
            NpuDeviceType::AppleNeuralEngine => 0,
            NpuDeviceType::IntelNpu => 1,
            NpuDeviceType::NvidiaGpu => 2,
            NpuDeviceType::AmdGpu => 3,
            NpuDeviceType::QualcommHexagon => 4,
            NpuDeviceType::GoogleEdgeTpu => 5,
            NpuDeviceType::CpuFallback => 6,
            NpuDeviceType::Mock => 7,
            NpuDeviceType::Unknown(_) => 8,
        }
    }

    pub fn same_as(&self, other: &NpuDeviceType) -> (r: bool)
        ensures
            r == same_device_type(*self, *other),
    {
        match (self, other) {
            (NpuDeviceType::Unknown(a), NpuDeviceType::Unknown(b)) => *a == *b,
            _ => self.tag() == other.tag(),
        }
    }

    /// A second value naming the same family.
    pub fn duplicate(&self) -> (r: Self)
        ensures
            same_device_type(r, *self),
    {
        match self {
            NpuDeviceType::AppleNeuralEngine => NpuDeviceType::AppleNeuralEngine,
            NpuDeviceType::IntelNpu => NpuDeviceType::IntelNpu,
            NpuDeviceType::NvidiaGpu => NpuDeviceType::NvidiaGpu,
            NpuDeviceType::AmdGpu => NpuDeviceType::AmdGpu,
            NpuDeviceType::QualcommHexagon => NpuDeviceType::QualcommHexagon,
            NpuDeviceType::GoogleEdgeTpu => NpuDeviceType::GoogleEdgeTpu,
            NpuDeviceType::CpuFallback => NpuDeviceType::CpuFallback,
            NpuDeviceType::Mock => NpuDeviceType::Mock,
            NpuDeviceType::Unknown(s) => NpuDeviceType::Unknown(s.clone()),
        }
    }
}

#[derive(Debug, Clone, PartialEq, Eq)]
pub enum NpuVendor {
    Apple,
    Intel,
    Nvidia,
    Amd,
    Qualcomm,
    Google,
    Unknown(String),
}

/// Power state of a device. Requests to change it are advisory.
#[derive(Debug, Clone, Copy, PartialEq, Eq, Structural)]
pub enum PowerState {
    Active,
    Idle,
    PowerSave,
    Suspended,
    Offline,
}

#[derive(Debug, Clone, Copy, PartialEq, Eq, Structural)]
pub enum MemoryType {
    Unified,
    Dedicated,
    Hbm,
    SystemRam,
}

/// A region of device memory; bandwidth in megabytes per second.
#[derive(Debug, Clone)]
pub struct MemoryRegion {
    pub memory_type: MemoryType,
    pub total_bytes: u64,
    pub available_bytes: u64,
    pub bandwidth_mbps: u64,
}

#[derive(Debug, Clone, Copy, PartialEq, Eq, Structural)]
pub enum DataType {
    Float32,
    Float16,
    BFloat16,
    Int8,
    Int16,
    Int32,
    UInt8,
    UInt16,
    UInt32,
    Bool,
}

/// Bytes taken by one element of a tensor of this type.
pub open spec fn element_size(t: DataType) -> int {
    match t {
        DataType::Float32 | DataType::Int32 | DataType::UInt32 => 4,
        DataType::Float16 | DataType::BFloat16 | DataType::Int16 | DataType::UInt16 => 2,
        DataType::Int8 | DataType::UInt8 | DataType::Bool => 1,
    }
}

impl DataType {
    pub fn size_bytes(&self) -> (r: u64)
        ensures
            r as int == element_size(*self),
    {
        match self {
            DataType::Float32 | DataType::Int32 | DataType::UInt32 => 4,
            DataType::Float16 | DataType::BFloat16 | DataType::Int16 | DataType::UInt16 => 2,
            DataType::Int8 | DataType::UInt8 | DataType::Bool => 1,
        }
    }
}

#[derive(Debug, Clone, Copy, PartialEq, Eq, Hash, Structural)]
pub enum ComputeUnit {
    TensorCore,
    VectorCore,
    ScalarCore,
    CustomAccelerator,
}

/// Performance envelope, in integer units: milli-TOPS, megabytes per second,
/// milliwatts and megahertz.
#[derive(Debug, Clone, Copy, PartialEq, Eq, Structural)]
pub struct PerformanceSpecs {
    pub peak_milli_tops: u64,
    pub sustained_milli_tops: u64,
    pub memory_bandwidth_mbps: u64,
    pub power_consumption_milliwatts: u64,
    pub frequency_mhz: u32,
}

/// Priority of a task; a lower rank is dispatched first.
#[derive(Debug, Clone, Copy, PartialEq, Eq, PartialOrd, Ord, Hash, Structural)]
pub enum TaskPriority {
    Critical,
    High,
    Normal,
    Low,
    Background,
}

pub open spec fn priority_rank(p: TaskPriority) -> int {
    match p {
        TaskPriority::Critical => 0,
        TaskPriority::High => 1,
        TaskPriority::Normal => 2,
        TaskPriority::Low => 3,
        TaskPriority::Background => 4,
    }
}

impl TaskPriority {
    pub fn rank(&self) -> (r: u8)
        ensures
            r as int == priority_rank(*self),
    {
        match self {
            TaskPriority::Critical => 0,
            TaskPriority::High => 1,
            TaskPriority::Normal => 2,
            TaskPriority::Low => 3,
            TaskPriority::Background => 4,
        }
    }
}

impl Default for TaskPriority {
    fn default() -> (r: Self)
        ensures
            r == TaskPriority::Normal,
    {
        TaskPriority::Normal
    }
}

/// Lifecycle of a task: `Queued`, then `Running`, then one terminal state.
#[derive(Debug, Clone, PartialEq, Eq)]
pub enum TaskStatus {
    Queued,
    Running,
    Completed,
    Failed(String),
    Cancelled,
    TimedOut,
}

pub open spec fn is_terminal(s: TaskStatus) -> bool {
    !(s is Queued) && !(s is Running)
}

/// The variant of a status as a number, in declaration order.
pub open spec fn status_kind(s: TaskStatus) -> int {
    match s {
        TaskStatus::Queued => 0,
        TaskStatus::Running => 1,
        TaskStatus::Completed => 2,
        TaskStatus::Failed(_) => 3,
        TaskStatus::Cancelled => 4,
        TaskStatus::TimedOut => 5,
    }
}

pub const STATUS_QUEUED: u8 = 0;
pub const STATUS_RUNNING: u8 = 1;
pub const STATUS_COMPLETED: u8 = 2;
pub const STATUS_FAILED: u8 = 3;
pub const STATUS_CANCELLED: u8 = 4;
pub const STATUS_TIMED_OUT: u8 = 5;

impl TaskStatus {
    pub fn kind(&self) -> (r: u8)
        ensures
            r as int == status_kind(*self),
    {
        match self {
            TaskStatus::Queued => STATUS_QUEUED,
            TaskStatus::Running => STATUS_RUNNING,
            TaskStatus::Completed => STATUS_COMPLETED,
            TaskStatus::Failed(_) => STATUS_FAILED,
            TaskStatus::Cancelled => STATUS_CANCELLED,
            TaskStatus::TimedOut => STATUS_TIMED_OUT,
        }
    }

    pub fn is_terminal(&self) -> (r: bool)
        ensures
            r == is_terminal(*self),
    {
        match self {
            TaskStatus::Queued | TaskStatus::Running => false,
            _ => true,
        }
    }

    /// A second status equal to this one.
    pub fn duplicate(&self) -> (r: Self)
        ensures
            r == *self,
    {
        match self {
            TaskStatus::Queued => TaskStatus::Queued,
            TaskStatus::Running => TaskStatus::Running,
            TaskStatus::Completed => TaskStatus::Completed,
            TaskStatus::Failed(m) => TaskStatus::Failed(m.clone()),
            TaskStatus::Cancelled => TaskStatus::Cancelled,
            TaskStatus::TimedOut => TaskStatus::TimedOut,
        }
    }
}

/// Resources bound to a task at admission: the device, compute units, a memory
/// budget, a power budget in milliwatts and a timeout in milliseconds.
#[derive(Debug, Clone)]
pub struct ResourceAllocation {
    pub device_id: NpuDeviceId,
    pub compute_units: Vec<ComputeUnit>,
    pub memory_bytes: u64,
    pub power_budget_milliwatts: u32,
    pub timeout_ms: u64,
}

#[derive(Debug, Clone, PartialEq, Eq)]
pub enum ModelFormat {
    Onnx,
    TensorFlow,
    PyTorch,
    CoreMl,
    TfLite,
    OpenVino,
    Custom(String),
}

pub open spec fn model_format_tag(f: ModelFormat) -> int {
    match f {
        ModelFormat::Onnx => 0,
        ModelFormat::TensorFlow => 1,
        ModelFormat::PyTorch => 2,
        ModelFormat::CoreMl => 3,
        ModelFormat::TfLite => 4,
        ModelFormat::OpenVino => 5,
        ModelFormat::Custom(_) => 6,
    }
}

/// Two formats are the same: same variant, and for `Custom` the same name.
pub open spec fn same_model_format(a: ModelFormat, b: ModelFormat) -> bool {
    &&& model_format_tag(a) == model_format_tag(b)
    &&& (a is Custom ==> b is Custom && a->Custom_0@ == b->Custom_0@)
}

impl ModelFormat {
    pub fn tag(&self) -> (r: u8)
        ensures
            r as int == model_format_tag(*self),
    {
        match self {
            ModelFormat::Onnx => 0,
            ModelFormat::TensorFlow => 1,
            ModelFormat::PyTorch => 2,
            ModelFormat::CoreMl => 3,
            ModelFormat::TfLite => 4,
            ModelFormat::OpenVino => 5,
            ModelFormat::Custom(_) => 6,
        }
    }

    pub fn same_as(&self, other: &ModelFormat) -> (r: bool)
        ensures
            r == same_model_format(*self, *other),
    {
        match (self, other) {
            (ModelFormat::Custom(a), ModelFormat::Custom(b)) => *a == *b,
            _ => self.tag() == other.tag(),
        }
    }
}

#[derive(Debug, Clone)]
pub struct ModelInfo {
    pub format: ModelFormat,
    pub input_shapes: Vec<Vec<u64>>,
    pub output_shapes: Vec<Vec<u64>>,
    pub input_types: Vec<DataType>,
    pub output_types: Vec<DataType>,
    pub parameter_count: u64,
    pub model_size_bytes: u64,
}

/// One input tensor: raw little-endian bytes, a shape and an element type.
#[derive(Debug, Clone)]
pub struct InferenceInput {
    pub data: Vec<u8>,
    pub shape: Vec<u64>,
    pub data_type: DataType,
}

/// One output tensor, laid out as the inputs are.
#[derive(Debug, Clone)]
pub struct InferenceOutput {
    pub data: Vec<u8>,
    pub shape: Vec<u64>,
    pub data_type: DataType,
}

/// A request to run a model; the timeout is in milliseconds.
#[derive(Debug, Clone)]
pub struct InferenceRequest {
    pub model_path: String,
    pub inputs: Vec<InferenceInput>,
    pub timeout_ms: u64,
    pub priority: TaskPriority,
    pub agent_id: Option<usize>,
    pub metadata: Vec<(String, String)>,
}

/// The outputs of one inference; the execution time is in microseconds.
#[derive(Debug, Clone)]
pub struct InferenceResponse {
    pub outputs: Vec<InferenceOutput>,
    pub execution_time_us: u64,
    pub device_id: NpuDeviceId,
    pub metadata: Vec<(String, String)>,
}

/// A snapshot of scheduler and device usage, recomputed on every query.
/// Utilisations are in thousandths.
#[derive(Debug, Clone, Copy, PartialEq, Eq, Structural)]
pub struct NpuUsageStats {
    pub total_devices: usize,
    /// Devices that take work.
    pub active_devices: usize,
    /// Devices with a running task.
    pub busy_devices: usize,
    /// Busy devices per thousand devices.
    pub compute_utilization_permille: u64,
    pub tasks_completed: usize,
    pub tasks_failed: usize,
    pub tasks_cancelled: usize,
    pub tasks_timed_out: usize,
    pub running_tasks: usize,
    pub queued_tasks: usize,
    /// Memory budgets of the running tasks, in bytes.
    pub memory_in_use_bytes: u64,
    /// Memory of all devices, in bytes.
    pub memory_total_bytes: u64,
    /// Memory in use per thousand bytes of device memory, at most 1000.
    pub memory_utilization_permille: u64,
    /// Rated power of the devices that run a task, in milliwatts.
    pub power_consumption_milliwatts: u64,
}

/// A point-in-time health snapshot; temperature in millidegrees Celsius, power in
/// milliwatts.
#[derive(Debug, Clone)]
pub struct DeviceHealth {
    pub is_healthy: bool,
    pub temperature_millicelsius: i32,
    pub power_consumption_milliwatts: u32,
    pub memory_errors: u32,
    pub compute_errors: u32,
    pub status_message: String,
}

/// Errors of NPU operations.
#[derive(Debug, Clone, PartialEq, Eq)]
pub enum NpuError {
    DeviceNotFound(NpuDeviceId),
    DeviceUnavailable(String),
    InsufficientResources(String),
    ModelLoadError(String),
    InferenceFailed(String),
    Timeout,
    HardwareError(String),
    DriverError(String),
    ConfigError(String),
}

impl NpuError {
    /// The error's detail text, empty for `Timeout`.
    pub fn message(&self) -> (r: String)
        ensures
            *self matches NpuError::DeviceNotFound(id) ==> r@ == id@,
            *self matches NpuError::DeviceUnavailable(m) ==> r@ == m@,
            *self matches NpuError::InsufficientResources(m) ==> r@ == m@,
            *self matches NpuError::ModelLoadError(m) ==> r@ == m@,
            *self matches NpuError::InferenceFailed(m) ==> r@ == m@,
            *self is Timeout ==> r@.len() == 0,
            *self matches NpuError::HardwareError(m) ==> r@ == m@,
            *self matches NpuError::DriverError(m) ==> r@ == m@,
            *self matches NpuError::ConfigError(m) ==> r@ == m@,
    {
        match self {
            NpuError::DeviceNotFound(id) => id.0.clone(),
            NpuError::DeviceUnavailable(m) => m.clone(),
            NpuError::InsufficientResources(m) => m.clone(),
            NpuError::ModelLoadError(m) => m.clone(),
            NpuError::InferenceFailed(m) => m.clone(),
            NpuError::Timeout => String::new(),
            NpuError::HardwareError(m) => m.clone(),
            NpuError::DriverError(m) => m.clone(),
            NpuError::ConfigError(m) => m.clone(),
        }
    }

    /// Whether the caller may retry the same request unchanged.
    pub fn is_retryable(&self) -> (r: bool)
        ensures
            r == (*self is Timeout || *self is DeviceUnavailable),
    {
        match self {
            NpuError::Timeout | NpuError::DeviceUnavailable(_) => true,
            _ => false,
        }
    }
}

/// Soft placement constraints supplied with a task. Throughput is in milli-TOPS and
/// latency in milliseconds.
#[derive(Debug, Clone)]
pub struct SchedulingHints {
    pub preferred_devices: Vec<NpuDeviceType>,
    pub avoid_devices: Vec<NpuDeviceId>,
    pub required_memory_type: Option<MemoryType>,
    pub min_milli_tops: Option<u64>,
    pub max_latency_ms: Option<u64>,
}

impl Default for SchedulingHints {
    fn default() -> (r: Self)
        ensures
            r.preferred_devices@.len() == 0,
            r.avoid_devices@.len() == 0,
            r.required_memory_type is None,
            r.min_milli_tops is None,
            r.max_latency_ms is None,
    {
        SchedulingHints {
            preferred_devices: Vec::new(),
            avoid_devices: Vec::new(),
            required_memory_type: None,
            min_milli_tops: None,
            max_latency_ms: None,
        }
    }
}

/// A task submitted to the scheduler.
#[derive(Debug, Clone)]
pub struct InferenceTask {
    pub id: usize,
    pub request: InferenceRequest,
    pub priority: TaskPriority,
    pub resource_requirements: ResourceAllocation,
    pub scheduling_hints: SchedulingHints,
}

} // verus!

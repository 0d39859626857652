//! What a device can do: compute, memory, model support and performance.
//! Built once when a device is created and only read afterwards.
use vstd::prelude::*;
use crate::types::{
    ComputeUnit, DataType, MemoryType, ModelFormat, PerformanceSpecs, same_model_format,
};

verus! {

/// Cores of `unit` in a list of (unit, count) entries: the first entry for it, else 0.
pub open spec fn core_count_in(counts: Seq<(ComputeUnit, u32)>, unit: ComputeUnit) -> u32
    decreases counts.len(),
{
    if counts.len() == 0 {
        0
    } else if counts[0].0 == unit {
        counts[0].1
    } else {
        core_count_in(counts.drop_first(), unit)
    }
}

pub open spec fn has_format(formats: Seq<ModelFormat>, f: ModelFormat) -> bool {
    exists|i: int| 0 <= i < formats.len() && same_model_format(formats[i], f)
}

#[derive(Debug, Clone)]
pub struct ComputeCapability {
    pub compute_units: Vec<ComputeUnit>,
    pub core_counts: Vec<(ComputeUnit, u32)>,
    pub supported_data_types: Vec<DataType>,
    pub max_batch_size: u32,
    pub max_tensor_dims: u32,
    pub concurrent_inference: bool,
    pub mixed_precision: bool,
}

impl Default for ComputeCapability {
    fn default() -> (r: Self)
        ensures
            r.compute_units@ == seq![ComputeUnit::TensorCore, ComputeUnit::VectorCore],
            r.core_counts@ == seq![(ComputeUnit::TensorCore, 8u32), (ComputeUnit::VectorCore, 4u32)],
            r.supported_data_types@ == seq![DataType::Float32, DataType::Float16, DataType::Int8],
            r.max_batch_size == 32,
            r.max_tensor_dims == 8,
            r.concurrent_inference,
            r.mixed_precision,
    {
        ComputeCapability {
            compute_units: vec![ComputeUnit::TensorCore, ComputeUnit::VectorCore],
            core_counts: vec![(ComputeUnit::TensorCore, 8u32), (ComputeUnit::VectorCore, 4u32)],
            supported_data_types: vec![DataType::Float32, DataType::Float16, DataType::Int8],
            max_batch_size: 32,
            max_tensor_dims: 8,
            concurrent_inference: true,
            mixed_precision: true,
        }
    }
}

#[derive(Debug, Clone)]
pub struct MemoryCapability {
    pub total_memory_bytes: u64,
    pub supported_memory_types: Vec<MemoryType>,
    pub max_allocation_bytes: u64,
    pub alignment_bytes: u64,
    pub memory_pooling: bool,
    pub unified_memory: bool,
}

/// Four gibibytes.
pub const DEFAULT_TOTAL_MEMORY: u64 = 4294967296;

/// One gibibyte.
pub const DEFAULT_MAX_ALLOCATION: u64 = 1073741824;

impl Default for MemoryCapability {
    fn default() -> (r: Self)
        ensures
            r.total_memory_bytes == DEFAULT_TOTAL_MEMORY,
            r.supported_memory_types@ == seq![MemoryType::Unified, MemoryType::Dedicated],
            r.max_allocation_bytes == DEFAULT_MAX_ALLOCATION,
            r.alignment_bytes == 256,
            r.memory_pooling,
            r.unified_memory,
    {
        MemoryCapability {
            total_memory_bytes: DEFAULT_TOTAL_MEMORY,
            supported_memory_types: vec![MemoryType::Unified, MemoryType::Dedicated],
            max_allocation_bytes: DEFAULT_MAX_ALLOCATION,
            alignment_bytes: 256,
            memory_pooling: true,
            unified_memory: true,
        }
    }
}

#[derive(Debug, Clone)]
pub struct ModelSupport {
    pub supported_formats: Vec<ModelFormat>,
    pub dynamic_loading: bool,
    pub quantization: Vec<DataType>,
    pub dynamic_shapes: bool,
    pub graph_optimization: bool,
    pub custom_operators: bool,
}

impl Default for ModelSupport {
    fn default() -> (r: Self)
        ensures
            r.supported_formats@ == seq![ModelFormat::Onnx, ModelFormat::TensorFlow],
            r.dynamic_loading,
            r.quantization@ == seq![DataType::Int8, DataType::Float16],
            !r.dynamic_shapes,
            r.graph_optimization,
            !r.custom_operators,
    {
        ModelSupport {
            supported_formats: vec![ModelFormat::Onnx, ModelFormat::TensorFlow],
            dynamic_loading: true,
            quantization: vec![DataType::Int8, DataType::Float16],
            dynamic_shapes: false,
            graph_optimization: true,
            custom_operators: false,
        }
    }
}

/// The full capability description of a device.
#[derive(Debug, Clone)]
pub struct NpuCapabilities {
    pub compute: ComputeCapability,
    pub memory: MemoryCapability,
    pub model_support: ModelSupport,
    pub performance: PerformanceSpecs,
}

/// The capabilities of a default device: two tensor-capable compute units, 4 GiB of
/// unified or dedicated memory, ONNX and TensorFlow models.
pub open spec fn is_default_capabilities(c: NpuCapabilities) -> bool {
    &&& c.compute.compute_units@ == seq![ComputeUnit::TensorCore, ComputeUnit::VectorCore]
    &&& c.compute.core_counts@ == seq![(ComputeUnit::TensorCore, 8u32), (ComputeUnit::VectorCore, 4u32)]
    &&& c.compute.supported_data_types@ == seq![DataType::Float32, DataType::Float16, DataType::Int8]
    &&& c.compute.max_batch_size == 32
    &&& c.compute.max_tensor_dims == 8
    &&& c.compute.concurrent_inference
    &&& c.compute.mixed_precision
    &&& c.memory.total_memory_bytes == DEFAULT_TOTAL_MEMORY
    &&& c.memory.max_allocation_bytes == DEFAULT_MAX_ALLOCATION
    &&& c.memory.supported_memory_types@ == seq![MemoryType::Unified, MemoryType::Dedicated]
    &&& c.memory.alignment_bytes == 256
    &&& c.memory.memory_pooling
    &&& c.memory.unified_memory
    &&& c.model_support.supported_formats@ == seq![ModelFormat::Onnx, ModelFormat::TensorFlow]
    &&& c.model_support.dynamic_loading
    &&& c.model_support.quantization@ == seq![DataType::Int8, DataType::Float16]
    &&& !c.model_support.dynamic_shapes
    &&& c.model_support.graph_optimization
    &&& !c.model_support.custom_operators
    &&& c.performance == PerformanceSpecs {
        peak_milli_tops: 1000,
        sustained_milli_tops: 800,
        memory_bandwidth_mbps: 10000,
        power_consumption_milliwatts: 10000,
        frequency_mhz: 1000,
    }
}

/// No compute unit has two core-count entries.
pub open spec fn unique_units(counts: Seq<(ComputeUnit, u32)>) -> bool {
    forall|i: int, j: int| 0 <= i < counts.len() && 0 <= j < counts.len() && i != j ==> counts[i].0 != counts[j].0
}

impl Default for NpuCapabilities {
    fn default() -> (r: Self)
        ensures
            is_default_capabilities(r),
            r.wf(),
    {
        NpuCapabilities {
            compute: ComputeCapability::default(),
            memory: MemoryCapability::default(),
            model_support: ModelSupport::default(),
            performance: PerformanceSpecs {
                peak_milli_tops: 1000,
                sustained_milli_tops: 800,
                memory_bandwidth_mbps: 10000,
                power_consumption_milliwatts: 10000,
                frequency_mhz: 1000,
            },
        }
    }
}

impl NpuCapabilities {
    /// Each compute unit has at most one core count.
    pub open spec fn wf(&self) -> bool {
        unique_units(self.compute.core_counts@)
    }

    /// Whether each compute unit has at most one core count.
    pub fn is_well_formed(&self) -> (r: bool)
        ensures
            r == self.wf(),
    {
        let v = &self.compute.core_counts;
        let mut i: usize = 0;
        while i < v.len()
            invariant
                0 <= i <= v@.len(),
                v@ == self.compute.core_counts@,
                forall|a: int, b: int| 0 <= a < i && 0 <= b < v@.len() && a != b ==> v@[a].0 != v@[b].0,
            decreases v@.len() - i,
        {
            let mut j: usize = 0;
            while j < v.len()
                invariant
                    0 <= j <= v@.len(),
                    i < v@.len(),
                    v@ == self.compute.core_counts@,
                    forall|b: int| 0 <= b < j && b != i ==> v@[i as int].0 != v@[b].0,
                decreases v@.len() - j,
            {
                if j != i && v[i].0 == v[j].0 {
                    return false;
                }
                j = j + 1;
            }
            i = i + 1;
        }
        true
    }

    pub fn supports_data_type(&self, data_type: &DataType) -> (r: bool)
        ensures
            r == self.compute.supported_data_types@.contains(*data_type),
    {
        let v = &self.compute.supported_data_types;
        let mut i: usize = 0;
        while i < v.len()
            invariant
                0 <= i <= v.len(),
                v@ == self.compute.supported_data_types@,
                forall|j: int| 0 <= j < i ==> v@[j] != *data_type,
            decreases v.len() - i,
        {
            if v[i] == *data_type {
                assert(v@[i as int] == *data_type);
                return true;
            }
            i = i + 1;
        }
        false
    }

    pub fn supports_model_format(&self, format: &ModelFormat) -> (r: bool)
        ensures
            r == has_format(self.model_support.supported_formats@, *format),
    {
        let v = &self.model_support.supported_formats;
        let mut i: usize = 0;
        while i < v.len()
            invariant
                0 <= i <= v.len(),
                v@ == self.model_support.supported_formats@,
                forall|j: int| 0 <= j < i ==> !same_model_format(#[trigger] v@[j], *format),
            decreases v.len() - i,
        {
            if v[i].same_as(format) {
                assert(same_model_format(v@[i as int], *format));
                return true;
            }
            i = i + 1;
        }
        false
    }

    pub fn has_compute_unit(&self, unit: &ComputeUnit) -> (r: bool)
        ensures
            r == self.compute.compute_units@.contains(*unit),
    {
        let v = &self.compute.compute_units;
        let mut i: usize = 0;
        while i < v.len()
            invariant
                0 <= i <= v.len(),
                v@ == self.compute.compute_units@,
                forall|j: int| 0 <= j < i ==> v@[j] != *unit,
            decreases v.len() - i,
        {
            if v[i] == *unit {
                assert(v@[i as int] == *unit);
                return true;
            }
            i = i + 1;
        }
        false
    }

    /// Cores of `unit`: its entry's count, or 0 when it has none.
    pub fn get_core_count(&self, unit: &ComputeUnit) -> (r: u32)
        ensures
            r == core_count_in(self.compute.core_counts@, *unit),
            self.wf() ==> forall|i: int| 0 <= i < self.compute.core_counts@.len()
                && #[trigger] self.compute.core_counts@[i].0 == *unit ==> r == self.compute.core_counts@[i].1,
            (forall|i: int| 0 <= i < self.compute.core_counts@.len() ==> #[trigger] self.compute.core_counts@[i].0 != *unit) ==> r == 0,
    {
        let v = &self.compute.core_counts;
        let mut i: usize = 0;
        assert(v@.subrange(0, v@.len() as int) =~= v@);
        while i < v.len()
            invariant
                0 <= i <= v.len(),
                v@ == self.compute.core_counts@,
                core_count_in(v@, *unit) == core_count_in(v@.subrange(i as int, v@.len() as int), *unit),
                forall|j: int| 0 <= j < i ==> v@[j].0 != *unit,
            decreases v.len() - i,
        {
            let ghost rest = v@.subrange(i as int, v@.len() as int);
            assert(rest.drop_first() =~= v@.subrange(i + 1, v@.len() as int));
            assert(rest[0] == v@[i as int]);
            if v[i].0 == *unit {
                return v[i].1;
            }
            i = i + 1;
        }
        0
    }

    pub fn supports_concurrent_inference(&self) -> (r: bool)
        ensures
            r == self.compute.concurrent_inference,
    {
        self.compute.concurrent_inference
    }

    pub fn max_batch_size(&self) -> (r: u32)
        ensures
            r == self.compute.max_batch_size,
    {
        self.compute.max_batch_size
    }

    /// Total device memory in bytes.
    pub fn available_memory(&self) -> (r: u64)
        ensures
            r == self.memory.total_memory_bytes,
    {
        self.memory.total_memory_bytes
    }

    pub fn supports_memory_type(&self, memory_type: &MemoryType) -> (r: bool)
        ensures
            r == self.memory.supported_memory_types@.contains(*memory_type),
    {
        let v = &self.memory.supported_memory_types;
        let mut i: usize = 0;
        while i < v.len()
            invariant
                0 <= i <= v.len(),
                v@ == self.memory.supported_memory_types@,
                forall|j: int| 0 <= j < i ==> v@[j] != *memory_type,
            decreases v.len() - i,
        {
            if v[i] == *memory_type {
                assert(v@[i as int] == *memory_type);
                return true;
            }
            i = i + 1;
        }
        false
    }
}

} // verus!

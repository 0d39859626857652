//! The Apple Neural Engine device, which drives the hardware through
//! `AppleNeuralEngineDriver`. Its model handles are random numbers, checked against
//! the live ones; its power state is managed by the operating system.
use std::sync::Arc;
use vstd::prelude::*;
use crate::capabilities::{ComputeCapability, MemoryCapability, ModelSupport, NpuCapabilities};
use crate::device::{NpuDeviceInfo, copy_dims};
use crate::driver::{AppleNeuralEngineDriver, CoreMLModelHandle, cache_after_load, is_handle_for};
use crate::hal::{MemoryHandle, ModelHandle};
use crate::resources::{ResourceTable, can_allocate, handles_below, holds_handle};
use crate::tensor::{request_is_well_formed, request_well_formed};
use crate::types::{
    ComputeUnit, DataType, DeviceHealth, InferenceOutput, InferenceRequest, InferenceResponse,
    MemoryRegion, MemoryType, ModelFormat, NpuDeviceId, NpuDeviceType, NpuError, NpuVendor,
    PerformanceSpecs, PowerState,
};

verus! {

/// Relies on `rand::random`: a value drawn from the thread-local generator. Nothing is
/// promised of it, so callers check what they draw.
pub assume_specification<T>[ rand::random::<T> ]() -> (r: T)
    where
        rand::distributions::Standard: rand::distributions::Distribution<T>,
;

/// Sixty-four gibibytes of unified memory.
pub const APPLE_TOTAL_MEMORY: u64 = 68719476736;

/// Eight gibibytes per allocation.
pub const APPLE_MAX_ALLOCATION: u64 = 8589934592;

/// Execution time the device reports, in microseconds.
pub const APPLE_EXECUTION_TIME_US: u64 = 500;

/// Capabilities of the Neural Engine (M2 Max estimates).
pub open spec fn is_apple_capabilities(c: NpuCapabilities) -> bool {
    &&& c.compute.compute_units@ == seq![ComputeUnit::TensorCore, ComputeUnit::VectorCore]
    &&& c.compute.core_counts@ == seq![(ComputeUnit::TensorCore, 16u32), (ComputeUnit::VectorCore, 8u32)]
    &&& c.compute.supported_data_types@ == seq![DataType::Float32, DataType::Float16, DataType::Int8, DataType::UInt8]
    &&& c.compute.max_batch_size == 1
    &&& c.compute.max_tensor_dims == 4
    &&& c.compute.concurrent_inference
    &&& c.compute.mixed_precision
    &&& c.memory.total_memory_bytes == APPLE_TOTAL_MEMORY
    &&& c.memory.max_allocation_bytes == APPLE_MAX_ALLOCATION
    &&& c.memory.supported_memory_types@ == seq![MemoryType::Unified]
    &&& c.memory.alignment_bytes == 16
    &&& c.memory.memory_pooling
    &&& c.memory.unified_memory
    &&& c.model_support.supported_formats@ == seq![ModelFormat::CoreMl, ModelFormat::Onnx]
    &&& c.model_support.dynamic_loading
    &&& c.model_support.quantization@ == seq![DataType::Int8, DataType::Float16]
    &&& !c.model_support.dynamic_shapes
    &&& c.model_support.graph_optimization
    &&& !c.model_support.custom_operators
    &&& c.performance == PerformanceSpecs {
        peak_milli_tops: 15800,
        sustained_milli_tops: 12000,
        memory_bandwidth_mbps: 400000,
        power_consumption_milliwatts: 8000,
        frequency_mhz: 1000,
    }
}

fn apple_capabilities() -> (r: NpuCapabilities)
    ensures
        is_apple_capabilities(r),
        r.wf(),
{
    let kinds = vec![MemoryType::Unified];
    assert(kinds@ =~= seq![MemoryType::Unified]);
    let formats = vec![ModelFormat::CoreMl, ModelFormat::Onnx];
    assert(formats@ == seq![ModelFormat::CoreMl, ModelFormat::Onnx]);
    let types = vec![DataType::Float32, DataType::Float16, DataType::Int8, DataType::UInt8];
    assert(types@ == seq![DataType::Float32, DataType::Float16, DataType::Int8, DataType::UInt8]);
    NpuCapabilities {
        compute: ComputeCapability {
            compute_units: vec![ComputeUnit::TensorCore, ComputeUnit::VectorCore],
            core_counts: vec![(ComputeUnit::TensorCore, 16u32), (ComputeUnit::VectorCore, 8u32)],
            supported_data_types: types,
            max_batch_size: 1,
            max_tensor_dims: 4,
            concurrent_inference: true,
            mixed_precision: true,
        },
        memory: MemoryCapability {
            total_memory_bytes: APPLE_TOTAL_MEMORY,
            supported_memory_types: kinds,
            max_allocation_bytes: APPLE_MAX_ALLOCATION,
            alignment_bytes: 16,
            memory_pooling: true,
            unified_memory: true,
        },
        model_support: ModelSupport {
            supported_formats: formats,
            dynamic_loading: true,
            quantization: vec![DataType::Int8, DataType::Float16],
            dynamic_shapes: false,
            graph_optimization: true,
            custom_operators: false,
        },
        performance: PerformanceSpecs {
            peak_milli_tops: 15800,
            sustained_milli_tops: 12000,
            memory_bandwidth_mbps: 400000,
            power_consumption_milliwatts: 8000,
            frequency_mhz: 1000,
        },
    }
}

/// A Neural Engine request: well formed for the device, and its first input made of
/// 32-bit floats, which is what the engine reads.
pub open spec fn apple_request_ok(req: InferenceRequest, c: NpuCapabilities) -> bool {
    request_well_formed(req, c.compute.supported_data_types@) && req.inputs@[0].data_type == DataType::Float32
}

#[derive(Debug)]
pub struct AppleNeuralDevice {
    pub info: NpuDeviceInfo,
    pub capabilities: Arc<NpuCapabilities>,
    pub driver: AppleNeuralEngineDriver,
    /// Model handles live on this device (the driver's own handles stay in its cache),
    /// and memory allocations.
    pub resources: ResourceTable,
    pub initialized: bool,
}

/// A freshly made Neural Engine device: a random 36-character identifier, Apple's
/// description and capabilities, and no handles or cached models.
pub open spec fn is_new_apple_device(d: AppleNeuralDevice, neural_engine_available: bool) -> bool {
    &&& d.info.id@.len() == 36
    &&& d.info.name@ == "Apple Neural Engine"@
    &&& d.info.device_type is AppleNeuralEngine
    &&& d.info.vendor is Apple
    &&& d.info.driver_version@ == "16.0.0"@
    &&& (d.info.firmware_version matches Some(f) && f@ == "1.0.0"@)
    &&& is_apple_capabilities(*d.capabilities)
    &&& d.driver.is_neural_engine_available == neural_engine_available
    &&& d.driver.loaded_models@.len() == 0
    &&& d.resources.models@.len() == 0
    &&& d.resources.allocations@.len() == 0
    &&& d.resources.next_handle == 1
    &&& !d.initialized
}

impl AppleNeuralDevice {
    pub open spec fn wf(&self) -> bool {
        &&& self.resources.wf()
        &&& self.capabilities.wf()
        &&& self.driver.wf()
        &&& self.resources.reserved_bytes <= self.capabilities.memory.total_memory_bytes
        &&& handles_below(self.resources.allocations@, self.resources.next_handle)
    }

    /// A device with a fresh random identifier. Whether the Neural Engine is present is
    /// probed by the caller.
    pub fn new(neural_engine_available: bool) -> (r: Result<Self, NpuError>)
        ensures
            r matches Ok(d) && d.wf() && is_new_apple_device(d, neural_engine_available),
    {
        let info = NpuDeviceInfo::new(
            NpuDeviceId::generate(),
            String::from_str("Apple Neural Engine"),
            NpuDeviceType::AppleNeuralEngine,
            NpuVendor::Apple,
        ).with_driver_version(String::from_str("16.0.0")).with_firmware_version(String::from_str("1.0.0"));
        let driver = match AppleNeuralEngineDriver::new(neural_engine_available) {
            Ok(d) => d,
            Err(e) => return Err(e),
        };
        Ok(AppleNeuralDevice {
            info,
            capabilities: Arc::new(apple_capabilities()),
            driver,
            resources: ResourceTable::new(),
            initialized: false,
        })
    }

    pub fn id(&self) -> (r: NpuDeviceId)
        ensures
            r@ == self.info.id@,
    {
        self.info.id.duplicate()
    }

    pub fn info(&self) -> (r: &NpuDeviceInfo)
        ensures
            *r == self.info,
    {
        &self.info
    }

    /// The shared, read-only capability description: the same on every call.
    pub fn capabilities(&self) -> (r: Arc<NpuCapabilities>)
        ensures
            *r == *self.capabilities,
    {
        self.capabilities.clone()
    }

    pub fn init(&mut self) -> (r: Result<(), NpuError>)
        requires
            old(self).wf(),
        ensures
            r is Ok,
            final(self).wf(),
            final(self).initialized,
            final(self).resources == old(self).resources,
            final(self).info == old(self).info,
            final(self).capabilities == old(self).capabilities,
    {
        self.initialized = true;
        Ok(())
    }

    /// Releases every model and memory handle.
    pub fn shutdown(&mut self) -> (r: Result<(), NpuError>)
        requires
            old(self).wf(),
        ensures
            r is Ok,
            final(self).wf(),
            !final(self).initialized,
            final(self).resources.models@.len() == 0,
            final(self).resources.allocations@.len() == 0,
            final(self).info == old(self).info,
            final(self).capabilities == old(self).capabilities,
    {
        self.resources.clear();
        self.initialized = false;
        Ok(())
    }

    /// First half of an inference: checks the request and loads its model through the
    /// driver's cache. The engine then runs on the first input's floats; `complete_inference`
    /// wraps what it returns.
    pub fn prepare_inference(&mut self, request: &InferenceRequest) -> (r: Result<CoreMLModelHandle, NpuError>)
        requires
            old(self).wf(),
        ensures
            final(self).wf(),
            final(self).info == old(self).info,
            final(self).capabilities == old(self).capabilities,
            final(self).resources == old(self).resources,
            !apple_request_ok(*request, *old(self).capabilities) <==> r matches Err(NpuError::InferenceFailed(_)),
            apple_request_ok(*request, *old(self).capabilities) && request.model_path@.len() == 0
                <==> r matches Err(NpuError::ModelLoadError(_)),
            r matches Ok(h) ==> is_handle_for(h, request.model_path@, old(self).driver.is_neural_engine_available),
            r is Ok <==> apple_request_ok(*request, *old(self).capabilities) && request.model_path@.len() > 0,
            r is Ok ==> final(self).driver.cached_paths() == cache_after_load(old(self).driver.cached_paths(), request.model_path@),
            r is Err ==> final(self).driver.cached_paths() == old(self).driver.cached_paths(),
    {
        if !request_is_well_formed(request, &self.capabilities.compute.supported_data_types)
            || request.inputs[0].data_type != DataType::Float32 {
            return Err(NpuError::InferenceFailed(String::from_str("input does not match its shape or type")));
        }
        self.driver.load_model(request.model_path.as_str())
    }

    /// Second half of an inference: the engine's output bytes, shaped and typed as the
    /// first input.
    pub fn complete_inference(&self, request: &InferenceRequest, output: Vec<u8>) -> (r: InferenceResponse)
        requires
            request.inputs@.len() > 0,
        ensures
            r.outputs@.len() == 1,
            r.outputs@[0].data@ == output@,
            r.outputs@[0].shape@ == request.inputs@[0].shape@,
            r.outputs@[0].data_type == request.inputs@[0].data_type,
            r.device_id@ == self.info.id@,
            r.execution_time_us == APPLE_EXECUTION_TIME_US,
    {
        let first = &request.inputs[0];
        InferenceResponse {
            outputs: vec![InferenceOutput { data: output, shape: copy_dims(&first.shape), data_type: first.data_type }],
            execution_time_us: APPLE_EXECUTION_TIME_US,
            device_id: self.id(),
            metadata: Vec::new(),
        }
    }

    /// Loads a model through the driver and records it under a random handle. A draw that
    /// hits a live handle is refused with `DriverError`.
    pub fn load_model(&mut self, model_path: &str) -> (r: Result<ModelHandle, NpuError>)
        requires
            old(self).wf(),
        ensures
            final(self).wf(),
            final(self).info == old(self).info,
            final(self).capabilities == old(self).capabilities,
            final(self).resources.allocations == old(self).resources.allocations,
            model_path@.len() == 0 <==> r matches Err(NpuError::ModelLoadError(_)),
            r matches Err(e) ==> (e is ModelLoadError || e is DriverError),
            r is Err ==> final(self).resources == old(self).resources,
            model_path@.len() > 0 ==> final(self).driver.cached_paths()
                == cache_after_load(old(self).driver.cached_paths(), model_path@),
            r matches Ok(h) ==> {
                &&& !holds_handle(old(self).resources.models@, h.0)
                &&& final(self).resources.models@.len() == old(self).resources.models@.len() + 1
                &&& final(self).resources.models@.drop_last() == old(self).resources.models@
                &&& final(self).resources.models@.last().0 == h.0
                &&& final(self).resources.models@.last().1@ == model_path@
            },
    {
        match self.driver.load_model(model_path) {
            Err(e) => return Err(e),
            Ok(_) => {},
        }
        let id: u64 = rand::random::<u64>();
        self.record_model(id, model_path)
    }

    /// Records a loaded model under the handle `id`; refused with `DriverError` when a
    /// live model already holds that handle.
    pub fn record_model(&mut self, id: u64, model_path: &str) -> (r: Result<ModelHandle, NpuError>)
        requires
            old(self).wf(),
        ensures
            final(self).wf(),
            final(self).info == old(self).info,
            final(self).capabilities == old(self).capabilities,
            final(self).driver == old(self).driver,
            final(self).resources.allocations == old(self).resources.allocations,
            r is Err <==> holds_handle(old(self).resources.models@, id),
            r is Err ==> (r matches Err(NpuError::DriverError(_)) && final(self).resources == old(self).resources),
            r matches Ok(h) ==> h.0 == id && final(self).resources.models@.len() == old(self).resources.models@.len() + 1
                && final(self).resources.models@.drop_last() == old(self).resources.models@
                && final(self).resources.models@.last().0 == id
                && final(self).resources.models@.last().1@ == model_path@,
    {
        if crate::resources::find_handle(&self.resources.models, id).is_some() {
            return Err(NpuError::DriverError(String::from_str("model handle already in use")));
        }
        self.resources.insert_model(id, String::from_str(model_path));
        assert(self.resources.models@.drop_last() =~= old(self).resources.models@);
        Ok(ModelHandle::new(id))
    }

    /// Unloads a model; a handle that is not live is rejected.
    pub fn unload_model(&mut self, handle: ModelHandle) -> (r: Result<(), NpuError>)
        requires
            old(self).wf(),
        ensures
            final(self).wf(),
            final(self).info == old(self).info,
            final(self).capabilities == old(self).capabilities,
            r is Ok <==> holds_handle(old(self).resources.models@, handle.0),
            r is Ok ==> exists|i: int|
                0 <= i < old(self).resources.models@.len() && old(self).resources.models@[i].0 == handle.0
                    && final(self).resources.models@ == old(self).resources.models@.remove(i),
            final(self).resources.next_handle == old(self).resources.next_handle,
            r is Err ==> (r matches Err(NpuError::DeviceNotFound(id)) && id@ == old(self).info.id@),
            r is Err ==> final(self).resources == old(self).resources,
            !holds_handle(final(self).resources.models@, handle.0),
            final(self).resources.allocations == old(self).resources.allocations,
    {
        if self.resources.remove_model(handle.0) {
            Ok(())
        } else {
            Err(NpuError::DeviceNotFound(self.id()))
        }
    }

    /// The Neural Engine is always available.
    pub fn is_available(&self) -> (r: bool)
        ensures
            r,
    {
        true
    }

    pub fn get_health(&self) -> (r: Result<DeviceHealth, NpuError>)
        ensures
            r matches Ok(h) && h.is_healthy && h.memory_errors == 0 && h.compute_errors == 0
                && h.temperature_millicelsius == 45000 && h.power_consumption_milliwatts == 6000,
    {
        Ok(DeviceHealth {
            is_healthy: true,
            temperature_millicelsius: 45000,
            power_consumption_milliwatts: 6000,
            memory_errors: 0,
            compute_errors: 0,
            status_message: String::from_str("Apple Neural Engine operating normally"),
        })
    }

    pub fn get_power_state(&self) -> (r: Result<PowerState, NpuError>)
        ensures
            r == Ok::<PowerState, NpuError>(PowerState::Active),
    {
        Ok(PowerState::Active)
    }

    /// Accepted and ignored: the operating system manages the engine's power.
    pub fn set_power_state(&mut self, _state: PowerState) -> (r: Result<(), NpuError>)
        ensures
            r is Ok,
            *final(self) == *old(self),
    {
        Ok(())
    }

    /// One unified region: the total from the capabilities, less what is allocated.
    pub fn get_memory_info(&self) -> (r: Result<Vec<MemoryRegion>, NpuError>)
        requires
            self.wf(),
        ensures
            r matches Ok(v) && v@.len() == 1 && v@[0].memory_type == MemoryType::Unified
                && v@[0].total_bytes == self.capabilities.memory.total_memory_bytes
                && v@[0].available_bytes == self.capabilities.memory.total_memory_bytes
                    - self.resources.reserved_bytes,
    {
        let total = self.capabilities.memory.total_memory_bytes;
        let available = total - self.resources.reserved_bytes;
        Ok(vec![MemoryRegion {
            memory_type: MemoryType::Unified,
            total_bytes: total,
            available_bytes: available,
            bandwidth_mbps: self.capabilities.performance.memory_bandwidth_mbps,
        }])
    }

    /// Allocates `size_bytes`; refused with `InsufficientResources` when the request
    /// exceeds the per-allocation limit or the memory left.
    pub fn allocate_memory(&mut self, size_bytes: u64) -> (r: Result<MemoryHandle, NpuError>)
        requires
            old(self).wf(),
        ensures
            final(self).wf(),
            final(self).info == old(self).info,
            final(self).capabilities == old(self).capabilities,
            final(self).resources.models == old(self).resources.models,
            r is Ok <==> can_allocate(
                old(self).resources.reserved_bytes as int,
                old(self).capabilities.memory.total_memory_bytes,
                old(self).capabilities.memory.max_allocation_bytes,
                size_bytes,
            ) && old(self).resources.next_handle < u64::MAX,
            r is Err ==> r matches Err(NpuError::InsufficientResources(_)),
            r is Err ==> final(self).resources == old(self).resources,
            r matches Ok(h) ==> {
                &&& final(self).resources.allocations@ == old(self).resources.allocations@.push((h.0, size_bytes))
                &&& final(self).resources.reserved_bytes == old(self).resources.reserved_bytes + size_bytes
                &&& final(self).resources.next_handle == old(self).resources.next_handle + 1
            },
    {
        let total = self.capabilities.memory.total_memory_bytes;
        if size_bytes > self.capabilities.memory.max_allocation_bytes
            || size_bytes > total - self.resources.reserved_bytes {
            return Err(NpuError::InsufficientResources(String::from_str("allocation exceeds available memory")));
        }
        proof {
            if holds_handle(self.resources.allocations@, self.resources.next_handle) {
                let i = choose|i: int| 0 <= i < self.resources.allocations@.len() && self.resources.allocations@[i].0 == self.resources.next_handle;
                assert(self.resources.allocations@[i].0 < self.resources.next_handle);
            }
        }
        match self.resources.reserve(size_bytes) {
            None => Err(NpuError::InsufficientResources(String::from_str("no memory handles left"))),
            Some(h) => Ok(MemoryHandle::new(h)),
        }
    }

    /// Frees an allocation; a handle that is not live is rejected.
    pub fn free_memory(&mut self, handle: MemoryHandle) -> (r: Result<(), NpuError>)
        requires
            old(self).wf(),
        ensures
            final(self).wf(),
            final(self).info == old(self).info,
            final(self).capabilities == old(self).capabilities,
            final(self).resources.models == old(self).resources.models,
            r is Ok <==> holds_handle(old(self).resources.allocations@, handle.0),
            final(self).resources.next_handle == old(self).resources.next_handle,
            r is Err ==> (r matches Err(NpuError::DeviceNotFound(id)) && id@ == old(self).info.id@),
            r is Err ==> final(self).resources == old(self).resources,
            r is Ok ==> exists|i: int|
                0 <= i < old(self).resources.allocations@.len()
                    && old(self).resources.allocations@[i].0 == handle.0
                    && final(self).resources.allocations@ == old(self).resources.allocations@.remove(i)
                    && final(self).resources.reserved_bytes
                        == old(self).resources.reserved_bytes - old(self).resources.allocations@[i].1,
    {
        match self.resources.release(handle.0) {
            None => Err(NpuError::DeviceNotFound(self.id())),
            Some(_) => Ok(()),
        }
    }

    /// Utilisation in thousandths.
    pub fn get_utilization(&self) -> (r: u32)
        ensures
            r == 150,
    {
        150
    }

    /// Temperature in millidegrees Celsius.
    pub fn get_temperature(&self) -> (r: i32)
        ensures
            r == 45000,
    {
        45000
    }

    /// Recovers the device: every model and memory handle issued before is invalid
    /// afterwards.
    pub fn reset(&mut self) -> (r: Result<(), NpuError>)
        requires
            old(self).wf(),
        ensures
            r is Ok,
            final(self).wf(),
            final(self).resources.models@.len() == 0,
            final(self).resources.allocations@.len() == 0,
            final(self).info == old(self).info,
            final(self).capabilities == old(self).capabilities,
    {
        self.resources.clear();
        Ok(())
    }
}

} // verus!

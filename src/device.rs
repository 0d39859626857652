//! Device description and the mock device, which tracks its handles as a real one must.
use std::sync::Arc;
use vstd::prelude::*;
use crate::capabilities::{NpuCapabilities, is_default_capabilities};
use crate::resources::{ResourceTable, can_allocate, handles_below, holds_handle, lemma_allocation_round_trip};
use crate::tensor::{request_is_well_formed, request_well_formed};
use crate::types::{
    DeviceHealth, InferenceOutput, InferenceRequest, InferenceResponse, MemoryRegion, MemoryType,
    NpuDeviceId, NpuDeviceType, NpuError, NpuVendor, PowerState,
};
use crate::hal::{MemoryHandle, ModelHandle};

verus! {

/// Static description of a device.
#[derive(Debug, Clone)]
pub struct NpuDeviceInfo {
    pub id: NpuDeviceId,
    pub name: String,
    pub device_type: NpuDeviceType,
    pub vendor: NpuVendor,
    pub driver_version: String,
    pub firmware_version: Option<String>,
    pub serial_number: Option<String>,
    pub pci_id: Option<String>,
    pub numa_node: Option<u32>,
}

impl NpuDeviceInfo {
    /// A description with driver version "1.0.0" and no optional details.
    pub fn new(id: NpuDeviceId, name: String, device_type: NpuDeviceType, vendor: NpuVendor) -> (r: Self)
        ensures
            r.id == id,
            r.name == name,
            r.device_type == device_type,
            r.vendor == vendor,
            r.driver_version@ == "1.0.0"@,
            r.firmware_version is None,
            r.serial_number is None,
            r.pci_id is None,
            r.numa_node is None,
    {
        NpuDeviceInfo {
            id,
            name,
            device_type,
            vendor,
            driver_version: String::from_str("1.0.0"),
            firmware_version: None,
            serial_number: None,
            pci_id: None,
            numa_node: None,
        }
    }

    pub fn with_driver_version(self, version: String) -> (r: Self)
        ensures
            r == (NpuDeviceInfo { driver_version: version, ..self }),
    {
        NpuDeviceInfo { driver_version: version, ..self }
    }

    pub fn with_firmware_version(self, version: String) -> (r: Self)
        ensures
            r == (NpuDeviceInfo { firmware_version: Some(version), ..self }),
    {
        NpuDeviceInfo { firmware_version: Some(version), ..self }
    }

    pub fn with_serial_number(self, serial: String) -> (r: Self)
        ensures
            r == (NpuDeviceInfo { serial_number: Some(serial), ..self }),
    {
        NpuDeviceInfo { serial_number: Some(serial), ..self }
    }

    pub fn with_pci_id(self, pci_id: String) -> (r: Self)
        ensures
            r == (NpuDeviceInfo { pci_id: Some(pci_id), ..self }),
    {
        NpuDeviceInfo { pci_id: Some(pci_id), ..self }
    }

    pub fn with_numa_node(self, node: u32) -> (r: Self)
        ensures
            r == (NpuDeviceInfo { numa_node: Some(node), ..self }),
    {
        NpuDeviceInfo { numa_node: Some(node), ..self }
    }
}

/// A device takes work unless it is suspended or offline.
pub open spec fn power_available(p: PowerState) -> bool {
    !(p is Suspended) && !(p is Offline)
}

pub fn copy_bytes(v: &Vec<u8>) -> (r: Vec<u8>)
    ensures
        r@ == v@,
{
    let mut r: Vec<u8> = Vec::new();
    let mut i: usize = 0;
    while i < v.len()
        invariant
            0 <= i <= v@.len(),
            r@ == v@.subrange(0, i as int),
        decreases v@.len() - i,
    {
        r.push(v[i]);
        i = i + 1;
    }
    assert(v@.subrange(0, v@.len() as int) =~= v@);
    r
}

pub fn copy_dims(v: &Vec<u64>) -> (r: Vec<u64>)
    ensures
        r@ == v@,
{
    let mut r: Vec<u64> = Vec::new();
    let mut i: usize = 0;
    while i < v.len()
        invariant
            0 <= i <= v@.len(),
            r@ == v@.subrange(0, i as int),
        decreases v@.len() - i,
    {
        r.push(v[i]);
        i = i + 1;
    }
    assert(v@.subrange(0, v@.len() as int) =~= v@);
    r
}

/// A software device for tests and demos. It echoes its first input as output, and it
/// hands out a new, independent handle for every model load: unloading one handle
/// never invalidates another loaded from the same path.
#[derive(Debug)]
pub struct MockNpuDevice {
    pub info: NpuDeviceInfo,
    pub capabilities: Arc<NpuCapabilities>,
    pub resources: ResourceTable,
    pub power: PowerState,
    pub initialized: bool,
}

/// Execution time the mock reports, in microseconds.
pub const MOCK_EXECUTION_TIME_US: u64 = 10000;

impl MockNpuDevice {
    /// Handles come from a counter, so every issued handle lies below it.
    pub open spec fn wf(&self) -> bool {
        &&& self.resources.wf()
        &&& self.capabilities.wf()
        &&& self.resources.reserved_bytes <= self.capabilities.memory.total_memory_bytes
        &&& handles_below(self.resources.models@, self.resources.next_handle)
        &&& handles_below(self.resources.allocations@, self.resources.next_handle)
    }

    pub open spec fn available(&self) -> bool {
        power_available(self.power)
    }

    /// The mock device "mock-device" with default capabilities.
    pub fn new() -> (r: Result<Self, NpuError>)
        ensures
            r matches Ok(d) && d.wf() && d.info.id@ == "mock-device"@
                && d.info.device_type is Mock && d.power == PowerState::Active
                && is_default_capabilities(*d.capabilities)
                && d.resources.models@.len() == 0 && d.resources.allocations@.len() == 0
                && d.resources.next_handle == 1,
    {
        Ok(Self::with_capabilities(NpuDeviceId::new("mock-device"), NpuCapabilities::default()))
    }

    /// A mock device with the given identifier and capabilities, which must give each
    /// compute unit at most one core count (see `NpuCapabilities::is_well_formed`).
    pub fn with_capabilities(id: NpuDeviceId, capabilities: NpuCapabilities) -> (r: Self)
        requires
            capabilities.wf(),
        ensures
            r.wf(),
            r.info.id == id,
            r.info.device_type is Mock,
            *r.capabilities == capabilities,
            r.power == PowerState::Active,
            !r.initialized,
            r.resources.models@.len() == 0,
            r.resources.allocations@.len() == 0,
            r.resources.next_handle == 1,
    {
        let info = NpuDeviceInfo::new(
            id,
            String::from_str("Mock NPU Device"),
            NpuDeviceType::Mock,
            NpuVendor::Unknown(String::from_str("MockVendor")),
        );
        MockNpuDevice {
            info,
            capabilities: Arc::new(capabilities),
            resources: ResourceTable::new(),
            power: PowerState::Active,
            initialized: false,
        }
    }

    pub fn id(&self) -> (r: NpuDeviceId)
        ensures
            r@ == self.info.id@,
    {
        self.info.id.duplicate()
    }

    pub fn info(&self) -> (r: &NpuDeviceInfo)
        ensures
            *r == self.info,
    {
        &self.info
    }

    /// The shared, read-only capability description: the same on every call.
    pub fn capabilities(&self) -> (r: Arc<NpuCapabilities>)
        ensures
            *r == *self.capabilities,
    {
        self.capabilities.clone()
    }

    pub fn init(&mut self) -> (r: Result<(), NpuError>)
        requires
            old(self).wf(),
        ensures
            r is Ok,
            final(self).wf(),
            final(self).initialized,
            final(self).power == PowerState::Active,
            final(self).resources == old(self).resources,
            final(self).info == old(self).info,
            final(self).capabilities == old(self).capabilities,
    {
        self.initialized = true;
        self.power = PowerState::Active;
        Ok(())
    }

    /// Releases every model and memory handle and takes the device offline.
    pub fn shutdown(&mut self) -> (r: Result<(), NpuError>)
        requires
            old(self).wf(),
        ensures
            r is Ok,
            final(self).wf(),
            !final(self).initialized,
            final(self).power == PowerState::Offline,
            final(self).resources.models@.len() == 0,
            final(self).resources.allocations@.len() == 0,
            final(self).info == old(self).info,
            final(self).capabilities == old(self).capabilities,
    {
        self.resources.clear();
        self.initialized = false;
        self.power = PowerState::Offline;
        Ok(())
    }

    /// Runs a request: the single output is a copy of the first input.
    pub fn execute_inference(&self, request: &InferenceRequest) -> (r: Result<InferenceResponse, NpuError>)
        ensures
            !self.available() <==> r matches Err(NpuError::DeviceUnavailable(_)),
            self.available() && !request_well_formed(*request, self.capabilities.compute.supported_data_types@)
                <==> r matches Err(NpuError::InferenceFailed(_)),
            r is Ok <==> self.available() && request_well_formed(*request, self.capabilities.compute.supported_data_types@),
            r matches Ok(resp) ==> {
                &&& resp.outputs@.len() == 1
                &&& resp.outputs@[0].data@ == request.inputs@[0].data@
                &&& resp.outputs@[0].shape@ == request.inputs@[0].shape@
                &&& resp.outputs@[0].data_type == request.inputs@[0].data_type
                &&& resp.device_id@ == self.info.id@
                &&& resp.execution_time_us == MOCK_EXECUTION_TIME_US
            },
    {
        if !self.is_available() {
            return Err(NpuError::DeviceUnavailable(String::from_str("device is suspended or offline")));
        }
        if !request_is_well_formed(request, &self.capabilities.compute.supported_data_types) {
            return Err(NpuError::InferenceFailed(String::from_str("input does not match its shape or type")));
        }
        let first = &request.inputs[0];
        let output = InferenceOutput {
            data: copy_bytes(&first.data),
            shape: copy_dims(&first.shape),
            data_type: first.data_type,
        };
        Ok(InferenceResponse {
            outputs: vec![output],
            execution_time_us: MOCK_EXECUTION_TIME_US,
            device_id: self.id(),
            metadata: Vec::new(),
        })
    }

    /// Loads a model under a new handle; every load gets its own handle.
    pub fn load_model(&mut self, model_path: &str) -> (r: Result<ModelHandle, NpuError>)
        requires
            old(self).wf(),
        ensures
            final(self).wf(),
            final(self).info == old(self).info,
            final(self).capabilities == old(self).capabilities,
            final(self).power == old(self).power,
            model_path@.len() == 0 <==> r matches Err(NpuError::ModelLoadError(_)),
            model_path@.len() > 0 && old(self).resources.next_handle == u64::MAX
                <==> r matches Err(NpuError::InsufficientResources(_)),
            r is Ok <==> model_path@.len() > 0 && old(self).resources.next_handle < u64::MAX,
            r is Err ==> final(self).resources == old(self).resources,
            r matches Ok(h) ==> {
                &&& !old(self).resources.is_live(h.0)
                &&& final(self).resources.models@.len() == old(self).resources.models@.len() + 1
                &&& final(self).resources.models@.last().0 == h.0
                &&& final(self).resources.models@.last().1@ == model_path@
                &&& final(self).resources.models@.drop_last() == old(self).resources.models@
                &&& final(self).resources.allocations == old(self).resources.allocations
                &&& final(self).resources.next_handle == old(self).resources.next_handle + 1
            },
    {
        if model_path.unicode_len() == 0 {
            return Err(NpuError::ModelLoadError(String::from_str("empty model path")));
        }
        proof {
            if holds_handle(self.resources.models@, self.resources.next_handle) {
                let i = choose|i: int| 0 <= i < self.resources.models@.len() && self.resources.models@[i].0 == self.resources.next_handle;
                assert(self.resources.models@[i].0 < self.resources.next_handle);
            }
        }
        match self.resources.add_model(String::from_str(model_path)) {
            None => Err(NpuError::InsufficientResources(String::from_str("no model handles left"))),
            Some(h) => {
                assert(self.resources.models@.drop_last() =~= old(self).resources.models@);
                Ok(ModelHandle::new(h))
            },
        }
    }

    /// Unloads a model; a handle that is not live (never issued, unloaded, or issued
    /// before a reset) is rejected.
    pub fn unload_model(&mut self, handle: ModelHandle) -> (r: Result<(), NpuError>)
        requires
            old(self).wf(),
        ensures
            final(self).wf(),
            final(self).info == old(self).info,
            final(self).capabilities == old(self).capabilities,
            final(self).power == old(self).power,
            r is Ok <==> holds_handle(old(self).resources.models@, handle.0),
            r is Ok ==> exists|i: int|
                0 <= i < old(self).resources.models@.len() && old(self).resources.models@[i].0 == handle.0
                    && final(self).resources.models@ == old(self).resources.models@.remove(i),
            final(self).resources.next_handle == old(self).resources.next_handle,
            r is Err ==> (r matches Err(NpuError::DeviceNotFound(id)) && id@ == old(self).info.id@),
            r is Err ==> final(self).resources == old(self).resources,
            !holds_handle(final(self).resources.models@, handle.0),
            final(self).resources.allocations == old(self).resources.allocations,
    {
        if self.resources.remove_model(handle.0) {
            Ok(())
        } else {
            Err(NpuError::DeviceNotFound(self.id()))
        }
    }

    pub fn is_available(&self) -> (r: bool)
        ensures
            r == self.available(),
    {
        match self.power {
            PowerState::Suspended | PowerState::Offline => false,
            _ => true,
        }
    }

    pub fn get_health(&self) -> (r: Result<DeviceHealth, NpuError>)
        ensures
            r matches Ok(h) && h.is_healthy == self.available() && h.memory_errors == 0
                && h.compute_errors == 0 && h.temperature_millicelsius == 35000,
    {
        Ok(DeviceHealth {
            is_healthy: self.is_available(),
            temperature_millicelsius: 35000,
            power_consumption_milliwatts: 10000,
            memory_errors: 0,
            compute_errors: 0,
            status_message: String::from_str("All systems nominal"),
        })
    }

    pub fn get_power_state(&self) -> (r: Result<PowerState, NpuError>)
        ensures
            r == Ok::<PowerState, NpuError>(self.power),
    {
        Ok(self.power)
    }

    /// The mock honours every power request.
    pub fn set_power_state(&mut self, state: PowerState) -> (r: Result<(), NpuError>)
        requires
            old(self).wf(),
        ensures
            r is Ok,
            final(self).wf(),
            final(self).power == state,
            final(self).resources == old(self).resources,
            final(self).info == old(self).info,
            final(self).capabilities == old(self).capabilities,
            final(self).initialized == old(self).initialized,
    {
        self.power = state;
        Ok(())
    }

    /// One unified region: the total from the capabilities, less what is allocated.
    pub fn get_memory_info(&self) -> (r: Result<Vec<MemoryRegion>, NpuError>)
        requires
            self.wf(),
        ensures
            r matches Ok(v) && v@.len() == 1 && v@[0].memory_type == MemoryType::Unified
                && v@[0].total_bytes == self.capabilities.memory.total_memory_bytes
                && v@[0].available_bytes == self.capabilities.memory.total_memory_bytes
                    - self.resources.reserved_bytes,
    {
        let total = self.capabilities.memory.total_memory_bytes;
        let available = total - self.resources.reserved_bytes;
        Ok(vec![MemoryRegion {
            memory_type: MemoryType::Unified,
            total_bytes: total,
            available_bytes: available,
            bandwidth_mbps: self.capabilities.performance.memory_bandwidth_mbps,
        }])
    }

    /// Allocates `size_bytes`; refused with `InsufficientResources` when the request
    /// exceeds the per-allocation limit or the memory left.
    pub fn allocate_memory(&mut self, size_bytes: u64) -> (r: Result<MemoryHandle, NpuError>)
        requires
            old(self).wf(),
        ensures
            final(self).wf(),
            final(self).info == old(self).info,
            final(self).capabilities == old(self).capabilities,
            final(self).power == old(self).power,
            final(self).resources.models == old(self).resources.models,
            r is Ok <==> can_allocate(
                old(self).resources.reserved_bytes as int,
                old(self).capabilities.memory.total_memory_bytes,
                old(self).capabilities.memory.max_allocation_bytes,
                size_bytes,
            ) && old(self).resources.next_handle < u64::MAX,
            r is Err ==> r matches Err(NpuError::InsufficientResources(_)),
            r is Err ==> final(self).resources == old(self).resources,
            r matches Ok(h) ==> {
                &&& !old(self).resources.is_live(h.0)
                &&& final(self).resources.allocations@ == old(self).resources.allocations@.push((h.0, size_bytes))
                &&& final(self).resources.reserved_bytes == old(self).resources.reserved_bytes + size_bytes
                &&& final(self).resources.next_handle == old(self).resources.next_handle + 1
            },
    {
        let total = self.capabilities.memory.total_memory_bytes;
        if size_bytes > self.capabilities.memory.max_allocation_bytes
            || size_bytes > total - self.resources.reserved_bytes {
            return Err(NpuError::InsufficientResources(String::from_str("allocation exceeds available memory")));
        }
        proof {
            if holds_handle(self.resources.allocations@, self.resources.next_handle) {
                let i = choose|i: int| 0 <= i < self.resources.allocations@.len() && self.resources.allocations@[i].0 == self.resources.next_handle;
                assert(self.resources.allocations@[i].0 < self.resources.next_handle);
            }
        }
        match self.resources.reserve(size_bytes) {
            None => Err(NpuError::InsufficientResources(String::from_str("no memory handles left"))),
            Some(h) => Ok(MemoryHandle::new(h)),
        }
    }

    /// Frees an allocation; a handle that is not live is rejected.
    pub fn free_memory(&mut self, handle: MemoryHandle) -> (r: Result<(), NpuError>)
        requires
            old(self).wf(),
        ensures
            final(self).wf(),
            final(self).info == old(self).info,
            final(self).capabilities == old(self).capabilities,
            final(self).power == old(self).power,
            final(self).resources.models == old(self).resources.models,
            r is Ok <==> holds_handle(old(self).resources.allocations@, handle.0),
            final(self).resources.next_handle == old(self).resources.next_handle,
            r is Err ==> (r matches Err(NpuError::DeviceNotFound(id)) && id@ == old(self).info.id@),
            r is Err ==> final(self).resources == old(self).resources,
            r is Ok ==> exists|i: int|
                0 <= i < old(self).resources.allocations@.len()
                    && old(self).resources.allocations@[i].0 == handle.0
                    && final(self).resources.allocations@ == old(self).resources.allocations@.remove(i)
                    && final(self).resources.reserved_bytes
                        == old(self).resources.reserved_bytes - old(self).resources.allocations@[i].1,
    {
        match self.resources.release(handle.0) {
            None => Err(NpuError::DeviceNotFound(self.id())),
            Some(_) => Ok(()),
        }
    }

    /// Utilisation in thousandths.
    pub fn get_utilization(&self) -> (r: u32)
        ensures
            r == 100,
    {
        100
    }

    /// Temperature in millidegrees Celsius.
    pub fn get_temperature(&self) -> (r: i32)
        ensures
            r == 35000,
    {
        35000
    }

    /// Recovers the device: every model and memory handle issued before is invalid
    /// afterwards.
    pub fn reset(&mut self) -> (r: Result<(), NpuError>)
        requires
            old(self).wf(),
        ensures
            r is Ok,
            final(self).wf(),
            final(self).resources.models@.len() == 0,
            final(self).resources.allocations@.len() == 0,
            final(self).info == old(self).info,
            final(self).capabilities == old(self).capabilities,
            final(self).power == old(self).power,
    {
        self.resources.clear();
        Ok(())
    }
}

/// Memory round trip on a mock device: if `allocate_memory(size)` took `before` to
/// `allocated` with handle `h`, the handle can be freed, and if `free_memory(h)` then took
/// `allocated` to `freed`, the device holds the allocations and reserved bytes it had
/// before, so `allocate_memory(size)` succeeds again. Each allocation uses one handle of
/// the device's counter, so two must be left.
pub proof fn lemma_mock_allocation_round_trip(
    before: MockNpuDevice,
    allocated: MockNpuDevice,
    freed: MockNpuDevice,
    h: u64,
    size: u64,
)
    requires
        before.wf(),
        allocated.wf(),
        can_allocate(
            before.resources.reserved_bytes as int,
            before.capabilities.memory.total_memory_bytes,
            before.capabilities.memory.max_allocation_bytes,
            size,
        ),
        before.resources.next_handle < u64::MAX - 1,
        !before.resources.is_live(h),
        allocated.capabilities == before.capabilities,
        allocated.resources.allocations@ == before.resources.allocations@.push((h, size)),
        allocated.resources.reserved_bytes == before.resources.reserved_bytes + size,
        allocated.resources.next_handle == before.resources.next_handle + 1,
        freed.capabilities == allocated.capabilities,
        freed.resources.next_handle == allocated.resources.next_handle,
        exists|i: int|
            0 <= i < allocated.resources.allocations@.len() && allocated.resources.allocations@[i].0 == h
                && freed.resources.allocations@ == allocated.resources.allocations@.remove(i)
                && freed.resources.reserved_bytes == allocated.resources.reserved_bytes - allocated.resources.allocations@[i].1,
    ensures
        holds_handle(allocated.resources.allocations@, h),
        freed.resources.allocations@ == before.resources.allocations@,
        freed.resources.reserved_bytes == before.resources.reserved_bytes,
        can_allocate(
            freed.resources.reserved_bytes as int,
            freed.capabilities.memory.total_memory_bytes,
            freed.capabilities.memory.max_allocation_bytes,
            size,
        ),
        freed.resources.next_handle < u64::MAX,
{
    lemma_allocation_round_trip(
        before.resources.allocations@,
        h,
        size,
        before.capabilities.memory.total_memory_bytes,
        before.capabilities.memory.max_allocation_bytes,
    );
    let i = choose|i: int|
        0 <= i < allocated.resources.allocations@.len() && allocated.resources.allocations@[i].0 == h
            && freed.resources.allocations@ == allocated.resources.allocations@.remove(i)
            && freed.resources.reserved_bytes == allocated.resources.reserved_bytes - allocated.resources.allocations@[i].1;
    assert(allocated.resources.allocations@[i].0 == h);
    assert(allocated.resources.allocations@[i] == (h, size)) by {
        if i < before.resources.allocations@.len() {
            assert(allocated.resources.allocations@[i] == before.resources.allocations@[i]);
        }
    }
}

} // verus!

//! The closed set of device backends, the registry of discovered devices, and the
//! merging of discovery probes.
use std::sync::Arc;
use vstd::prelude::*;
use crate::apple::AppleNeuralDevice;
use crate::capabilities::NpuCapabilities;
use crate::device::{MockNpuDevice, NpuDeviceInfo, power_available};
use crate::hal::{MemoryHandle, ModelHandle};
use crate::resources::{can_allocate, holds_handle};
use crate::types::{
    DeviceHealth, MemoryRegion, NpuDeviceId, NpuDeviceType, NpuError, PowerState, same_device_type,
};

verus! {

/// A device of one of the supported backends.
#[derive(Debug)]
pub enum NpuDevice {
    Mock(MockNpuDevice),
    AppleNeural(AppleNeuralDevice),
}

impl NpuDevice {
    pub open spec fn wf(&self) -> bool {
        match self {
            NpuDevice::Mock(d) => d.wf(),
            NpuDevice::AppleNeural(d) => d.wf(),
        }
    }

    pub open spec fn info_view(&self) -> NpuDeviceInfo {
        match self {
            NpuDevice::Mock(d) => d.info,
            NpuDevice::AppleNeural(d) => d.info,
        }
    }

    pub open spec fn caps_view(&self) -> NpuCapabilities {
        match self {
            NpuDevice::Mock(d) => *d.capabilities,
            NpuDevice::AppleNeural(d) => *d.capabilities,
        }
    }

    pub open spec fn available(&self) -> bool {
        match self {
            NpuDevice::Mock(d) => d.available(),
            NpuDevice::AppleNeural(_) => true,
        }
    }

    /// Live model handles and their paths.
    pub open spec fn initialized(&self) -> bool {
        match self {
            NpuDevice::Mock(d) => d.initialized,
            NpuDevice::AppleNeural(d) => d.initialized,
        }
    }

    /// The power state the device reports; the Neural Engine's is always `Active`.
    pub open spec fn power_state(&self) -> PowerState {
        match self {
            NpuDevice::Mock(d) => d.power,
            NpuDevice::AppleNeural(_) => PowerState::Active,
        }
    }

    pub open spec fn live_models(&self) -> Seq<(u64, String)> {
        match self {
            NpuDevice::Mock(d) => d.resources.models@,
            NpuDevice::AppleNeural(d) => d.resources.models@,
        }
    }

    /// Live memory handles and their sizes.
    pub open spec fn live_allocations(&self) -> Seq<(u64, u64)> {
        match self {
            NpuDevice::Mock(d) => d.resources.allocations@,
            NpuDevice::AppleNeural(d) => d.resources.allocations@,
        }
    }

    pub open spec fn reserved(&self) -> u64 {
        match self {
            NpuDevice::Mock(d) => d.resources.reserved_bytes,
            NpuDevice::AppleNeural(d) => d.resources.reserved_bytes,
        }
    }

    pub open spec fn next_handle(&self) -> u64 {
        match self {
            NpuDevice::Mock(d) => d.resources.next_handle,
            NpuDevice::AppleNeural(d) => d.resources.next_handle,
        }
    }

    pub fn id(&self) -> (r: NpuDeviceId)
        ensures
            r@ == self.info_view().id@,
    {
        match self {
            NpuDevice::Mock(d) => d.id(),
            NpuDevice::AppleNeural(d) => d.id(),
        }
    }

    pub fn info(&self) -> (r: &NpuDeviceInfo)
        ensures
            *r == self.info_view(),
    {
        match self {
            NpuDevice::Mock(d) => d.info(),
            NpuDevice::AppleNeural(d) => d.info(),
        }
    }

    /// The shared, read-only capability description: the same on every call.
    pub fn capabilities(&self) -> (r: Arc<NpuCapabilities>)
        ensures
            *r == self.caps_view(),
    {
        match self {
            NpuDevice::Mock(d) => d.capabilities(),
            NpuDevice::AppleNeural(d) => d.capabilities(),
        }
    }

    pub fn init(&mut self) -> (r: Result<(), NpuError>)
        requires
            old(self).wf(),
        ensures
            r is Ok,
            final(self).wf(),
            final(self).info_view() == old(self).info_view(),
            final(self).caps_view() == old(self).caps_view(),
            final(self).live_models() == old(self).live_models(),
            final(self).live_allocations() == old(self).live_allocations(),
            final(self).initialized(),
            final(self).power_state() == PowerState::Active,
            final(self).available(),
            *old(self) is Mock ==> *final(self) is Mock,
            *old(self) is AppleNeural ==> *final(self) is AppleNeural,
    {
        match self {
            NpuDevice::Mock(d) => d.init(),
            NpuDevice::AppleNeural(d) => d.init(),
        }
    }

    /// Releases every model and memory handle.
    pub fn shutdown(&mut self) -> (r: Result<(), NpuError>)
        requires
            old(self).wf(),
        ensures
            r is Ok,
            final(self).wf(),
            final(self).info_view() == old(self).info_view(),
            final(self).caps_view() == old(self).caps_view(),
            final(self).live_models().len() == 0,
            final(self).live_allocations().len() == 0,
            !final(self).initialized(),
            *old(self) is Mock ==> *final(self) is Mock && final(self).power_state() == PowerState::Offline,
            *old(self) is AppleNeural ==> *final(self) is AppleNeural,
    {
        match self {
            NpuDevice::Mock(d) => d.shutdown(),
            NpuDevice::AppleNeural(d) => d.shutdown(),
        }
    }

    /// Loads a model: a mock device gives every load its own handle; the Neural Engine
    /// shares one driver-side model per path between its handles.
    pub fn load_model(&mut self, model_path: &str) -> (r: Result<ModelHandle, NpuError>)
        requires
            old(self).wf(),
        ensures
            final(self).wf(),
            final(self).info_view() == old(self).info_view(),
            final(self).caps_view() == old(self).caps_view(),
            final(self).available() == old(self).available(),
            final(self).live_allocations() == old(self).live_allocations(),
            model_path@.len() == 0 <==> r matches Err(NpuError::ModelLoadError(_)),
            r is Err ==> final(self).live_models() == old(self).live_models(),
            r matches Ok(h) ==> {
                &&& !holds_handle(old(self).live_models(), h.0)
                &&& final(self).live_models().len() == old(self).live_models().len() + 1
                &&& final(self).live_models().last().0 == h.0
                &&& final(self).live_models().last().1@ == model_path@
                &&& final(self).live_models().drop_last() == old(self).live_models()
            },
            *old(self) is Mock ==> (r is Ok <==> model_path@.len() > 0 && old(self).next_handle() < u64::MAX),
            *old(self) is Mock ==> *final(self) is Mock,
            *old(self) is AppleNeural ==> *final(self) is AppleNeural,
    {
        match self {
            NpuDevice::Mock(d) => d.load_model(model_path),
            NpuDevice::AppleNeural(d) => d.load_model(model_path),
        }
    }

    /// Unloads a model; a handle that is not live is rejected with `DeviceNotFound`.
    pub fn unload_model(&mut self, handle: ModelHandle) -> (r: Result<(), NpuError>)
        requires
            old(self).wf(),
        ensures
            final(self).wf(),
            final(self).info_view() == old(self).info_view(),
            final(self).caps_view() == old(self).caps_view(),
            final(self).available() == old(self).available(),
            r is Ok <==> holds_handle(old(self).live_models(), handle.0),
            r is Ok ==> exists|i: int|
                0 <= i < old(self).live_models().len() && old(self).live_models()[i].0 == handle.0
                    && final(self).live_models() == old(self).live_models().remove(i),
            r is Err ==> final(self).live_models() == old(self).live_models(),
            r is Err ==> (r matches Err(NpuError::DeviceNotFound(id)) && id@ == old(self).info_view().id@),
            !holds_handle(final(self).live_models(), handle.0),
            final(self).live_allocations() == old(self).live_allocations(),
            *old(self) is Mock ==> *final(self) is Mock,
            *old(self) is AppleNeural ==> *final(self) is AppleNeural,
    {
        match self {
            NpuDevice::Mock(d) => d.unload_model(handle),
            NpuDevice::AppleNeural(d) => d.unload_model(handle),
        }
    }

    pub fn is_available(&self) -> (r: bool)
        ensures
            r == self.available(),
    {
        match self {
            NpuDevice::Mock(d) => d.is_available(),
            NpuDevice::AppleNeural(d) => d.is_available(),
        }
    }

    pub fn get_health(&self) -> (r: Result<DeviceHealth, NpuError>)
        ensures
            r matches Ok(h) && h.is_healthy == self.available() && h.memory_errors == 0 && h.compute_errors == 0,
    {
        match self {
            NpuDevice::Mock(d) => d.get_health(),
            NpuDevice::AppleNeural(d) => d.get_health(),
        }
    }

    pub fn get_power_state(&self) -> (r: Result<PowerState, NpuError>)
        ensures
            r matches Ok(p) && power_available(p) == self.available(),
            self matches NpuDevice::Mock(d) ==> r == Ok::<PowerState, NpuError>(d.power),
    {
        match self {
            NpuDevice::Mock(d) => d.get_power_state(),
            NpuDevice::AppleNeural(d) => d.get_power_state(),
        }
    }

    /// Requests a power state. The mock honours it; the Neural Engine's power is
    /// managed by the operating system and stays as it is.
    pub fn set_power_state(&mut self, state: PowerState) -> (r: Result<(), NpuError>)
        requires
            old(self).wf(),
        ensures
            r is Ok,
            final(self).wf(),
            final(self).info_view() == old(self).info_view(),
            final(self).caps_view() == old(self).caps_view(),
            final(self).live_models() == old(self).live_models(),
            final(self).live_allocations() == old(self).live_allocations(),
            *old(self) is Mock ==> *final(self) is Mock && final(self).available() == power_available(state),
            *old(self) is AppleNeural ==> *final(self) == *old(self),
    {
        match self {
            NpuDevice::Mock(d) => d.set_power_state(state),
            NpuDevice::AppleNeural(d) => d.set_power_state(state),
        }
    }

    pub fn get_memory_info(&self) -> (r: Result<Vec<MemoryRegion>, NpuError>)
        requires
            self.wf(),
        ensures
            r matches Ok(v) && v@.len() == 1
                && v@[0].total_bytes == self.caps_view().memory.total_memory_bytes
                && v@[0].available_bytes == self.caps_view().memory.total_memory_bytes - self.reserved(),
    {
        match self {
            NpuDevice::Mock(d) => d.get_memory_info(),
            NpuDevice::AppleNeural(d) => d.get_memory_info(),
        }
    }

    /// Allocates memory; refused with `InsufficientResources` beyond the per-allocation
    /// limit or the memory left.
    pub fn allocate_memory(&mut self, size_bytes: u64) -> (r: Result<MemoryHandle, NpuError>)
        requires
            old(self).wf(),
        ensures
            final(self).wf(),
            final(self).info_view() == old(self).info_view(),
            final(self).caps_view() == old(self).caps_view(),
            final(self).available() == old(self).available(),
            final(self).live_models() == old(self).live_models(),
            r is Ok <==> can_allocate(
                old(self).reserved() as int,
                old(self).caps_view().memory.total_memory_bytes,
                old(self).caps_view().memory.max_allocation_bytes,
                size_bytes,
            ) && old(self).next_handle() < u64::MAX,
            r is Err ==> r matches Err(NpuError::InsufficientResources(_)),
            r is Err ==> final(self).live_allocations() == old(self).live_allocations(),
            r matches Ok(h) ==> {
                &&& final(self).live_allocations() == old(self).live_allocations().push((h.0, size_bytes))
                &&& final(self).reserved() == old(self).reserved() + size_bytes
                &&& final(self).next_handle() == old(self).next_handle() + 1
            },
            *old(self) is Mock ==> *final(self) is Mock,
            *old(self) is AppleNeural ==> *final(self) is AppleNeural,
    {
        match self {
            NpuDevice::Mock(d) => d.allocate_memory(size_bytes),
            NpuDevice::AppleNeural(d) => d.allocate_memory(size_bytes),
        }
    }

    /// Frees memory; a handle that is not live is rejected with `DeviceNotFound`.
    pub fn free_memory(&mut self, handle: MemoryHandle) -> (r: Result<(), NpuError>)
        requires
            old(self).wf(),
        ensures
            final(self).wf(),
            final(self).info_view() == old(self).info_view(),
            final(self).caps_view() == old(self).caps_view(),
            final(self).available() == old(self).available(),
            final(self).live_models() == old(self).live_models(),
            r is Ok <==> holds_handle(old(self).live_allocations(), handle.0),
            final(self).next_handle() == old(self).next_handle(),
            r is Ok ==> exists|i: int|
                0 <= i < old(self).live_allocations().len() && old(self).live_allocations()[i].0 == handle.0
                    && final(self).live_allocations() == old(self).live_allocations().remove(i)
                    && final(self).reserved() == old(self).reserved() - old(self).live_allocations()[i].1,
            r is Err ==> final(self).live_allocations() == old(self).live_allocations(),
            r is Err ==> (r matches Err(NpuError::DeviceNotFound(id)) && id@ == old(self).info_view().id@),
            *old(self) is Mock ==> *final(self) is Mock,
            *old(self) is AppleNeural ==> *final(self) is AppleNeural,
    {
        match self {
            NpuDevice::Mock(d) => d.free_memory(handle),
            NpuDevice::AppleNeural(d) => d.free_memory(handle),
        }
    }

    /// Utilisation in thousandths.
    pub fn get_utilization(&self) -> (r: u32)
        ensures
            *self is Mock ==> r == 100,
            *self is AppleNeural ==> r == 150,
    {
        match self {
            NpuDevice::Mock(d) => d.get_utilization(),
            NpuDevice::AppleNeural(d) => d.get_utilization(),
        }
    }

    /// Temperature in millidegrees Celsius.
    pub fn get_temperature(&self) -> (r: i32)
        ensures
            *self is Mock ==> r == 35000,
            *self is AppleNeural ==> r == 45000,
    {
        match self {
            NpuDevice::Mock(d) => d.get_temperature(),
            NpuDevice::AppleNeural(d) => d.get_temperature(),
        }
    }

    /// Recovers the device; every handle issued before is invalid afterwards.
    pub fn reset(&mut self) -> (r: Result<(), NpuError>)
        requires
            old(self).wf(),
        ensures
            r is Ok,
            final(self).wf(),
            final(self).info_view() == old(self).info_view(),
            final(self).caps_view() == old(self).caps_view(),
            final(self).available() == old(self).available(),
            final(self).live_models().len() == 0,
            final(self).live_allocations().len() == 0,
            *old(self) is Mock ==> *final(self) is Mock,
            *old(self) is AppleNeural ==> *final(self) is AppleNeural,
    {
        match self {
            NpuDevice::Mock(d) => d.reset(),
            NpuDevice::AppleNeural(d) => d.reset(),
        }
    }
}

pub open spec fn position_of_id(devices: Seq<NpuDevice>, id: Seq<char>, i: int) -> bool {
    0 <= i < devices.len() && devices[i].info_view().id@ == id
}

pub open spec fn has_id(devices: Seq<NpuDevice>, id: Seq<char>) -> bool {
    exists|i: int| position_of_id(devices, id, i)
}

pub open spec fn unique_ids(devices: Seq<NpuDevice>) -> bool {
    forall|i: int, j: int|
        0 <= i < devices.len() && 0 <= j < devices.len() && i != j
            ==> devices[i].info_view().id@ != devices[j].info_view().id@
}

/// Position of the device with identifier `id`, if any.
pub fn find_device(devices: &Vec<NpuDevice>, id: &NpuDeviceId) -> (r: Option<usize>)
    ensures
        r matches Some(i) ==> position_of_id(devices@, id@, i as int),
        r is None <==> !has_id(devices@, id@),
{
    let mut i: usize = 0;
    while i < devices.len()
        invariant
            0 <= i <= devices@.len(),
            forall|j: int| 0 <= j < i ==> devices@[j].info_view().id@ != id@,
        decreases devices@.len() - i,
    {
        if devices[i].id().same_as(id) {
            assert(position_of_id(devices@, id@, i as int));
            return Some(i);
        }
        i = i + 1;
    }
    None
}

/// The devices known to the system, one per identifier.
#[derive(Debug)]
pub struct DeviceManager {
    pub devices: Vec<NpuDevice>,
}

impl DeviceManager {
    pub open spec fn wf(&self) -> bool {
        &&& unique_ids(self.devices@)
        &&& forall|i: int| 0 <= i < self.devices@.len() ==> (#[trigger] self.devices@[i]).wf()
    }

    pub fn new() -> (r: Self)
        ensures
            r.wf(),
            r.devices@.len() == 0,
    {
        DeviceManager { devices: Vec::new() }
    }

    /// Registers a device, replacing one with the same identifier.
    pub fn add_device(&mut self, device: NpuDevice)
        requires
            old(self).wf(),
            device.wf(),
        ensures
            final(self).wf(),
            has_id(final(self).devices@, device.info_view().id@),
            final(self).devices@.contains(device),
            forall|j: int| 0 <= j < old(self).devices@.len() && old(self).devices@[j].info_view().id@ != device.info_view().id@
                ==> final(self).devices@.contains(#[trigger] old(self).devices@[j]),
            final(self).devices@.len() == old(self).devices@.len() + if has_id(old(self).devices@, device.info_view().id@) { 0int } else { 1int },
    {
        let id = device.id();
        match find_device(&self.devices, &id) {
            Some(i) => {
                let ghost before = self.devices@;
                self.devices.set(i, device);
                proof {
                    assert(self.devices@[i as int] == device);
                    assert(position_of_id(self.devices@, device.info_view().id@, i as int));
                    assert forall|j: int| 0 <= j < before.len() && before[j].info_view().id@ != device.info_view().id@
                        implies self.devices@.contains(#[trigger] before[j]) by {
                        assert(j != i);
                        assert(self.devices@[j] == before[j]);
                    }
                }
            },
            None => {
                let ghost before = self.devices@;
                self.devices.push(device);
                proof {
                    let n = before.len() as int;
                    assert(self.devices@[n] == device);
                    assert(position_of_id(self.devices@, device.info_view().id@, n));
                    assert forall|j: int| 0 <= j < before.len() && before[j].info_view().id@ != device.info_view().id@
                        implies self.devices@.contains(#[trigger] before[j]) by {
                        assert(self.devices@[j] == before[j]);
                    }
                    assert forall|a: int, b: int|
                        0 <= a < self.devices@.len() && 0 <= b < self.devices@.len() && a != b
                            implies self.devices@[a].info_view().id@ != self.devices@[b].info_view().id@ by {
                        if a == n {
                            assert(!position_of_id(before, device.info_view().id@, b));
                        } else if b == n {
                            assert(!position_of_id(before, device.info_view().id@, a));
                        }
                    }
                }
            },
        }
    }

    /// Removes and returns the device with identifier `id`.
    pub fn remove_device(&mut self, id: &NpuDeviceId) -> (r: Option<NpuDevice>)
        requires
            old(self).wf(),
        ensures
            final(self).wf(),
            r is None <==> !has_id(old(self).devices@, id@),
            r is None ==> final(self).devices@ == old(self).devices@,
            r matches Some(d) ==> d.info_view().id@ == id@ && exists|i: int|
                position_of_id(old(self).devices@, id@, i) && final(self).devices@ == old(self).devices@.remove(i),
            !has_id(final(self).devices@, id@),
    {
        match find_device(&self.devices, id) {
            None => None,
            Some(i) => {
                let d = self.devices.remove(i);
                proof {
                    let s = old(self).devices@;
                    assert forall|a: int| 0 <= a < self.devices@.len() implies !position_of_id(self.devices@, id@, a) by {
                        if a < i {
                            assert(self.devices@[a] == s[a]);
                        } else {
                            assert(self.devices@[a] == s[a + 1]);
                        }
                    }
                    assert forall|a: int| 0 <= a < self.devices@.len() implies (#[trigger] self.devices@[a]).wf() by {
                        if a < i {
                            assert(self.devices@[a] == s[a]);
                        } else {
                            assert(self.devices@[a] == s[a + 1]);
                        }
                    }
                }
                Some(d)
            },
        }
    }

    pub fn get_device(&self, id: &NpuDeviceId) -> (r: Option<&NpuDevice>)
        ensures
            r is None <==> !has_id(self.devices@, id@),
            r matches Some(d) ==> d.info_view().id@ == id@ && self.devices@.contains(*d),
    {
        match find_device(&self.devices, id) {
            None => None,
            Some(i) => {
                assert(self.devices@.contains(self.devices@[i as int]));
                Some(&self.devices[i])
            },
        }
    }

    pub fn get_all_devices(&self) -> (r: &Vec<NpuDevice>)
        ensures
            r@ == self.devices@,
    {
        &self.devices
    }

    /// Positions of the devices that take work, in registration order.
    pub fn get_available_devices(&self) -> (r: Vec<usize>)
        ensures
            forall|k: int| 0 <= k < r@.len() ==> r@[k] < self.devices@.len() && self.devices@[r@[k] as int].available(),
            forall|i: int| 0 <= i < self.devices@.len() && (#[trigger] self.devices@[i]).available() ==> r@.contains(i as usize),
            forall|a: int, b: int| 0 <= a < b < r@.len() ==> r@[a] < r@[b],
    {
        let mut r: Vec<usize> = Vec::new();
        let mut i: usize = 0;
        while i < self.devices.len()
            invariant
                0 <= i <= self.devices@.len(),
                forall|k: int| 0 <= k < r@.len() ==> r@[k] < i && self.devices@[r@[k] as int].available(),
                forall|j: int| 0 <= j < i && (#[trigger] self.devices@[j]).available() ==> r@.contains(j as usize),
                forall|a: int, b: int| 0 <= a < b < r@.len() ==> r@[a] < r@[b],
            decreases self.devices@.len() - i,
        {
            if self.devices[i].is_available() {
                let ghost prev = r@;
                r.push(i);
                proof {
                    assert(r@[r@.len() - 1] == i);
                    assert forall|j: int| 0 <= j < i && #[trigger] prev.contains(j as usize) implies r@.contains(j as usize) by {
                        let k = choose|k: int| 0 <= k < prev.len() && prev[k] == j as usize;
                        assert(r@[k] == prev[k]);
                    }
                }
            }
            i = i + 1;
        }
        r
    }

    /// Positions of the devices of one family, in registration order.
    pub fn get_devices_by_type(&self, device_type: &NpuDeviceType) -> (r: Vec<usize>)
        ensures
            forall|k: int| 0 <= k < r@.len() ==> r@[k] < self.devices@.len()
                && same_device_type(self.devices@[r@[k] as int].info_view().device_type, *device_type),
            forall|i: int| 0 <= i < self.devices@.len() && same_device_type(#[trigger] self.devices@[i].info_view().device_type, *device_type)
                ==> r@.contains(i as usize),
            forall|a: int, b: int| 0 <= a < b < r@.len() ==> r@[a] < r@[b],
    {
        let mut r: Vec<usize> = Vec::new();
        let mut i: usize = 0;
        while i < self.devices.len()
            invariant
                0 <= i <= self.devices@.len(),
                forall|k: int| 0 <= k < r@.len() ==> r@[k] < i
                    && same_device_type(self.devices@[r@[k] as int].info_view().device_type, *device_type),
                forall|j: int| 0 <= j < i && same_device_type(#[trigger] self.devices@[j].info_view().device_type, *device_type)
                    ==> r@.contains(j as usize),
                forall|a: int, b: int| 0 <= a < b < r@.len() ==> r@[a] < r@[b],
            decreases self.devices@.len() - i,
        {
            if self.devices[i].info().device_type.same_as(device_type) {
                let ghost prev = r@;
                r.push(i);
                proof {
                    assert(r@[r@.len() - 1] == i);
                    assert forall|j: int| 0 <= j < i && #[trigger] prev.contains(j as usize) implies r@.contains(j as usize) by {
                        let k = choose|k: int| 0 <= k < prev.len() && prev[k] == j as usize;
                        assert(r@[k] == prev[k]);
                    }
                }
            }
            i = i + 1;
        }
        r
    }

    /// Initialises every device. None of them can fail, and a failure would not stop
    /// the others.
    pub fn init_all_devices(&mut self) -> (r: Result<(), NpuError>)
        requires
            old(self).wf(),
        ensures
            r is Ok,
            final(self).wf(),
            final(self).devices@.len() == old(self).devices@.len(),
            forall|i: int| 0 <= i < old(self).devices@.len() ==> {
                &&& (#[trigger] final(self).devices@[i]).info_view() == old(self).devices@[i].info_view()
                &&& final(self).devices@[i].initialized()
                &&& final(self).devices@[i].power_state() == PowerState::Active
                &&& final(self).devices@[i].live_models() == old(self).devices@[i].live_models()
                &&& final(self).devices@[i].live_allocations() == old(self).devices@[i].live_allocations()
            },
    {
        let n = self.devices.len();
        let mut i: usize = 0;
        while i < n
            invariant
                0 <= i <= n,
                n == old(self).devices@.len(),
                self.devices@.len() == n,
                self.wf(),
                forall|j: int| 0 <= j < n ==> (#[trigger] self.devices@[j]).info_view() == old(self).devices@[j].info_view(),
                forall|j: int| 0 <= j < n ==> (#[trigger] self.devices@[j]).live_models() == old(self).devices@[j].live_models()
                    && self.devices@[j].live_allocations() == old(self).devices@[j].live_allocations(),
                forall|j: int| 0 <= j < i ==> (#[trigger] self.devices@[j]).initialized()
                    && self.devices@[j].power_state() == PowerState::Active,
            decreases n - i,
        {
            let ghost before = self.devices@;
            let mut d = self.devices.remove(i);
            let _ = d.init();
            self.devices.insert(i, d);
            proof {
                assert forall|j: int| 0 <= j < n implies (#[trigger] self.devices@[j]).info_view() == old(self).devices@[j].info_view() by {
                    if j != i {
                        assert(self.devices@[j] == before[j]);
                    }
                }
                assert forall|j: int| 0 <= j < n implies (#[trigger] self.devices@[j]).wf() by {
                    if j != i {
                        assert(self.devices@[j] == before[j]);
                    }
                }
                assert forall|j: int| 0 <= j < n implies (#[trigger] self.devices@[j]).live_models() == old(self).devices@[j].live_models()
                    && self.devices@[j].live_allocations() == old(self).devices@[j].live_allocations() by {
                    if j != i {
                        assert(self.devices@[j] == before[j]);
                    }
                }
                assert forall|j: int| 0 <= j < i + 1 implies (#[trigger] self.devices@[j]).initialized()
                    && self.devices@[j].power_state() == PowerState::Active by {
                    if j != i {
                        assert(self.devices@[j] == before[j]);
                    }
                }
            }
            i = i + 1;
        }
        Ok(())
    }

    /// Shuts every device down, releasing all their handles.
    pub fn shutdown_all_devices(&mut self) -> (r: Result<(), NpuError>)
        requires
            old(self).wf(),
        ensures
            r is Ok,
            final(self).wf(),
            final(self).devices@.len() == old(self).devices@.len(),
            forall|i: int| 0 <= i < old(self).devices@.len() ==> {
                &&& (#[trigger] final(self).devices@[i]).info_view() == old(self).devices@[i].info_view()
                &&& final(self).devices@[i].live_models().len() == 0
                &&& final(self).devices@[i].live_allocations().len() == 0
                &&& !final(self).devices@[i].initialized()
                &&& (old(self).devices@[i] is Mock ==> final(self).devices@[i].power_state() == PowerState::Offline)
            },
    {
        let n = self.devices.len();
        let mut i: usize = 0;
        while i < n
            invariant
                0 <= i <= n,
                n == old(self).devices@.len(),
                self.devices@.len() == n,
                self.wf(),
                forall|j: int| 0 <= j < n ==> (#[trigger] self.devices@[j]).info_view() == old(self).devices@[j].info_view(),
                forall|j: int| 0 <= j < i ==> (#[trigger] self.devices@[j]).live_models().len() == 0
                    && self.devices@[j].live_allocations().len() == 0
                    && !self.devices@[j].initialized()
                    && (old(self).devices@[j] is Mock ==> self.devices@[j].power_state() == PowerState::Offline),
                forall|j: int| i <= j < n ==> #[trigger] self.devices@[j] == old(self).devices@[j],
            decreases n - i,
        {
            let ghost before = self.devices@;
            let mut d = self.devices.remove(i);
            let _ = d.shutdown();
            self.devices.insert(i, d);
            proof {
                assert forall|j: int| 0 <= j < n implies (#[trigger] self.devices@[j]).info_view() == old(self).devices@[j].info_view() by {
                    if j != i {
                        assert(self.devices@[j] == before[j]);
                    }
                }
                assert forall|j: int| 0 <= j < n implies (#[trigger] self.devices@[j]).wf() by {
                    if j != i {
                        assert(self.devices@[j] == before[j]);
                    }
                }
                assert forall|j: int| 0 <= j < i + 1 implies (#[trigger] self.devices@[j]).live_models().len() == 0
                    && self.devices@[j].live_allocations().len() == 0
                    && !self.devices@[j].initialized()
                    && (old(self).devices@[j] is Mock ==> self.devices@[j].power_state() == PowerState::Offline) by {
                    if j != i {
                        assert(self.devices@[j] == before[j]);
                    }
                }
                assert forall|j: int| i + 1 <= j < n implies #[trigger] self.devices@[j] == old(self).devices@[j] by {
                    assert(self.devices@[j] == before[j]);
                }
            }
            i = i + 1;
        }
        Ok(())
    }
}

/// All the elements of the successful probe results, in probe order.
pub open spec fn merged_probes(results: Seq<Result<Vec<NpuDevice>, NpuError>>) -> Seq<NpuDevice>
    decreases results.len(),
{
    if results.len() == 0 {
        Seq::empty()
    } else {
        merged_probes(results.drop_last()) + match results.last() {
            Ok(v) => v@,
            Err(_) => Seq::empty(),
        }
    }
}

/// Gathers what several discovery probes found. A failed probe is skipped: it never
/// hides the devices that another probe found.
pub struct DeviceDiscovery;

impl DeviceDiscovery {
    pub fn discover_all(probes: Vec<Result<Vec<NpuDevice>, NpuError>>) -> (r: Vec<NpuDevice>)
        ensures
            r@ == merged_probes(probes@),
    {
        let mut out: Vec<NpuDevice> = Vec::new();
        let mut rest = probes;
        let ghost all = rest@;
        let ghost mut k: int = 0;
        assert(all.subrange(0, 0).len() == 0);
        assert(rest@ =~= all.subrange(0, all.len() as int));
        while rest.len() > 0
            invariant
                0 <= k <= all.len(),
                rest@ == all.subrange(k, all.len() as int),
                out@ == merged_probes(all.subrange(0, k)),
            decreases rest@.len(),
        {
            let item = rest.remove(0);
            proof {
                assert(item == all[k]);
                assert(all.subrange(0, k + 1).drop_last() =~= all.subrange(0, k));
                assert(all.subrange(0, k + 1).last() == all[k]);
            }
            match item {
                Ok(mut found) => {
                    out.append(&mut found);
                },
                Err(_) => {
                    assert(out@ =~= out@ + Seq::<NpuDevice>::empty());
                },
            }
            proof {
                k = k + 1;
                assert(rest@ =~= all.subrange(k, all.len() as int));
            }
        }
        assert(all.subrange(0, k) =~= all);
        out
    }
}

} // verus!

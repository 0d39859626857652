//! Handles, HAL descriptors, the HAL backends and the registry of HAL factories.
//! A HAL discovers the devices of a platform and builds a scheduler bound to them.
use vstd::prelude::*;
use crate::apple::{AppleNeuralDevice, is_new_apple_device};
use crate::capabilities::is_default_capabilities;
use crate::device::MockNpuDevice;
use crate::registry::NpuDevice;
use crate::scheduler::{NpuScheduler, SchedDevice};
use crate::types::{NpuDeviceType, NpuError, same_device_type};

verus! {

/// Opaque handle to a model loaded on one device.
#[derive(Debug, Clone, Copy, PartialEq, Eq, Hash, Structural)]
pub struct ModelHandle(pub u64);

impl ModelHandle {
    pub fn new(id: u64) -> (r: Self)
        ensures
            r.0 == id,
    {
        ModelHandle(id)
    }

    pub fn id(&self) -> (r: u64)
        ensures
            r == self.0,
    {
        self.0
    }
}

/// Opaque handle to memory allocated on one device.
#[derive(Debug, Clone, Copy, PartialEq, Eq, Hash, Structural)]
pub struct MemoryHandle(pub u64);

impl MemoryHandle {
    pub fn new(id: u64) -> (r: Self)
        ensures
            r.0 == id,
    {
        MemoryHandle(id)
    }

    pub fn id(&self) -> (r: u64)
        ensures
            r == self.0,
    {
        self.0
    }
}

/// Optional behaviours a HAL may offer.
#[derive(Debug, Clone, Copy, PartialEq, Eq, Structural)]
pub enum HalFeature {
    DynamicModels,
    MultiModel,
    BatchInference,
    StreamingInference,
    Quantization,
    DynamicFrequency,
    PowerManagement,
    MemoryManagement,
    HardwareMonitoring,
    ErrorRecovery,
}

/// Static descriptor of a HAL implementation.
#[derive(Debug, Clone)]
pub struct HalInfo {
    pub name: String,
    pub version: String,
    pub supported_devices: Vec<NpuDeviceType>,
    pub features: Vec<HalFeature>,
}

/// The scheduler's device list describes `devs`, position by position.
pub open spec fn mirrors(sched: Seq<SchedDevice>, devs: Seq<NpuDevice>) -> bool {
    &&& sched.len() == devs.len()
    &&& forall|i: int| 0 <= i < devs.len() ==> {
        &&& (#[trigger] sched[i]).id@ == devs[i].info_view().id@
        &&& same_device_type(sched[i].device_type, devs[i].info_view().device_type)
        &&& *sched[i].capabilities == devs[i].caps_view()
        &&& sched[i].available == devs[i].available()
    }
}

/// What a scheduler needs to know of each device.
pub fn scheduler_devices(devices: &Vec<NpuDevice>) -> (r: Vec<SchedDevice>)
    ensures
        mirrors(r@, devices@),
{
    let mut r: Vec<SchedDevice> = Vec::new();
    let mut i: usize = 0;
    while i < devices.len()
        invariant
            0 <= i <= devices@.len(),
            r@.len() == i,
            forall|j: int| 0 <= j < i ==> {
                &&& (#[trigger] r@[j]).id@ == devices@[j].info_view().id@
                &&& same_device_type(r@[j].device_type, devices@[j].info_view().device_type)
                &&& *r@[j].capabilities == devices@[j].caps_view()
                &&& r@[j].available == devices@[j].available()
            },
        decreases devices@.len() - i,
    {
        let d = &devices[i];
        r.push(SchedDevice {
            id: d.id(),
            device_type: d.info().device_type.duplicate(),
            capabilities: d.capabilities(),
            available: d.is_available(),
        });
        i = i + 1;
    }
    r
}

/// The mock HAL: it discovers the devices it was given, or one default mock device.
#[derive(Debug)]
pub struct MockNpuHal {
    pub devices: Vec<MockNpuDevice>,
}

impl MockNpuHal {
    pub open spec fn wf(&self) -> bool {
        forall|i: int| 0 <= i < self.devices@.len() ==> (#[trigger] self.devices@[i]).wf()
    }

    pub fn new() -> (r: Result<Self, NpuError>)
        ensures
            r matches Ok(h) && h.devices@.len() == 0 && h.wf(),
    {
        Ok(MockNpuHal { devices: Vec::new() })
    }

    /// A mock HAL that discovers exactly these devices.
    pub fn with_devices(devices: Vec<MockNpuDevice>) -> (r: Self)
        requires
            forall|i: int| 0 <= i < devices@.len() ==> (#[trigger] devices@[i]).wf(),
        ensures
            r.devices == devices,
            r.wf(),
    {
        MockNpuHal { devices }
    }
}

/// The Apple Neural Engine HAL: it discovers one Neural Engine device.
#[derive(Debug)]
pub struct AppleNeuralEngineHal {
    pub neural_engine_available: bool,
}

impl AppleNeuralEngineHal {
    /// Whether the Neural Engine is present is probed by the caller.
    pub fn new(neural_engine_available: bool) -> (r: Result<Self, NpuError>)
        ensures
            r matches Ok(h) && h.neural_engine_available == neural_engine_available,
    {
        Ok(AppleNeuralEngineHal { neural_engine_available })
    }
}

/// A HAL of one of the supported platforms.
#[derive(Debug)]
pub enum NpuHal {
    Mock(MockNpuHal),
    AppleNeural(AppleNeuralEngineHal),
}

pub open spec fn all_wf(devs: Seq<NpuDevice>) -> bool {
    forall|i: int| 0 <= i < devs.len() ==> (#[trigger] devs[i]).wf()
}

impl NpuHal {
    pub open spec fn wf(&self) -> bool {
        match self {
            NpuHal::Mock(h) => h.wf(),
            NpuHal::AppleNeural(_) => true,
        }
    }

    /// Probes the platform. The mock HAL hands over the devices it was given (one default
    /// mock device if none), so a second call finds nothing new; the Apple HAL finds one
    /// Neural Engine.
    pub fn discover_devices(&mut self) -> (r: Result<Vec<NpuDevice>, NpuError>)
        requires
            old(self).wf(),
        ensures
            final(self).wf(),
            r matches Ok(v) && all_wf(v@) && v@.len() >= 1,
            *old(self) matches NpuHal::Mock(h) ==> (h.devices@.len() > 0 ==> (r matches Ok(v) && v@.len() == h.devices@.len()
                && forall|i: int| 0 <= i < v@.len() ==> v@[i] == NpuDevice::Mock(#[trigger] h.devices@[i]))),
            *old(self) matches NpuHal::Mock(h) ==> (h.devices@.len() == 0 ==> (r matches Ok(v) && v@.len() == 1
                && v@[0] is Mock && v@[0].info_view().id@ == "mock-device"@
                && is_default_capabilities(v@[0].caps_view()) && v@[0].available())),
            *old(self) matches NpuHal::AppleNeural(h) ==> (r matches Ok(v) && v@.len() == 1
                && (v@[0] matches NpuDevice::AppleNeural(a) && is_new_apple_device(a, h.neural_engine_available))),
            *old(self) is Mock ==> *final(self) is Mock,
            *old(self) is AppleNeural ==> *final(self) == *old(self),
    {
        match self {
            NpuHal::Mock(h) => {
                let mut out: Vec<NpuDevice> = Vec::new();
                if h.devices.len() == 0 {
                    match MockNpuDevice::new() {
                        Ok(d) => {
                            out.push(NpuDevice::Mock(d));
                            assert(out@[0].wf());
                        },
                        Err(e) => return Err(e),
                    }
                    return Ok(out);
                }
                let ghost given = h.devices@;
                assert(given.subrange(0, given.len() as int) =~= given);
                while h.devices.len() > 0
                    invariant
                        out@.len() + h.devices@.len() == given.len(),
                        h.devices@ == given.subrange(out@.len() as int, given.len() as int),
                        forall|i: int| 0 <= i < out@.len() ==> out@[i] == NpuDevice::Mock(#[trigger] given[i]),
                        forall|i: int| 0 <= i < given.len() ==> (#[trigger] given[i]).wf(),
                        h.wf(),
                    decreases h.devices@.len(),
                {
                    let d = h.devices.remove(0);
                    out.push(NpuDevice::Mock(d));
                }
                proof {
                    assert forall|i: int| 0 <= i < out@.len() implies (#[trigger] out@[i]).wf() by {
                        assert(out@[i] == NpuDevice::Mock(given[i]));
                    }
                }
                Ok(out)
            },
            NpuHal::AppleNeural(h) => {
                match AppleNeuralDevice::new(h.neural_engine_available) {
                    Ok(d) => {
                        let mut out: Vec<NpuDevice> = Vec::new();
                        out.push(NpuDevice::AppleNeural(d));
                        assert(out@[0].wf());
                        Ok(out)
                    },
                    Err(e) => Err(e),
                }
            },
        }
    }

    /// A scheduler bound to `devices`, with no tasks.
    pub fn create_scheduler(&self, devices: &Vec<NpuDevice>) -> (r: Result<NpuScheduler, NpuError>)
        ensures
            r matches Ok(s) && s.wf() && mirrors(s.devices@, devices@) && s.tasks@.len() == 0,
    {
        Ok(NpuScheduler::new(scheduler_devices(devices)))
    }

    pub fn get_hal_info(&self) -> (r: HalInfo)
        ensures
            *self is Mock ==> r.name@ == "Mock HAL"@ && r.supported_devices@.len() == 1
                && r.supported_devices@[0] is Mock
                && r.features@ == seq![HalFeature::DynamicModels, HalFeature::PowerManagement],
            *self is AppleNeural ==> r.name@ == "Apple Neural Engine HAL"@ && r.supported_devices@.len() == 1
                && r.supported_devices@[0] is AppleNeuralEngine
                && r.features@ == seq![
                    HalFeature::DynamicModels,
                    HalFeature::MultiModel,
                    HalFeature::PowerManagement,
                    HalFeature::MemoryManagement,
                    HalFeature::HardwareMonitoring,
                ],
            r.version@ == "1.0.0"@,
    {
        match self {
            NpuHal::Mock(_) => {
                let supported = vec![NpuDeviceType::Mock];
                HalInfo {
                    name: String::from_str("Mock HAL"),
                    version: String::from_str("1.0.0"),
                    supported_devices: supported,
                    features: vec![HalFeature::DynamicModels, HalFeature::PowerManagement],
                }
            },
            NpuHal::AppleNeural(_) => {
                let supported = vec![NpuDeviceType::AppleNeuralEngine];
                HalInfo {
                    name: String::from_str("Apple Neural Engine HAL"),
                    version: String::from_str("1.0.0"),
                    supported_devices: supported,
                    features: vec![
                        HalFeature::DynamicModels,
                        HalFeature::MultiModel,
                        HalFeature::PowerManagement,
                        HalFeature::MemoryManagement,
                        HalFeature::HardwareMonitoring,
                    ],
                }
            },
        }
    }

    pub fn shutdown(&self) -> (r: Result<(), NpuError>)
        ensures
            r is Ok,
    {
        Ok(())
    }
}

/// How a registered factory builds its HAL.
#[derive(Debug, Clone, Copy, PartialEq, Eq, Structural)]
pub enum HalFactory {
    Mock,
    AppleNeural { neural_engine_available: bool },
}

pub open spec fn factory_index(factories: Seq<(NpuDeviceType, HalFactory)>, t: NpuDeviceType, i: int) -> bool {
    0 <= i < factories.len() && same_device_type(factories[i].0, t)
}

pub open spec fn has_factory(factories: Seq<(NpuDeviceType, HalFactory)>, t: NpuDeviceType) -> bool {
    exists|i: int| factory_index(factories, t, i)
}

/// Maps device types to HAL factories, so a backend is added by registering it.
#[derive(Debug)]
pub struct HalRegistry {
    pub factories: Vec<(NpuDeviceType, HalFactory)>,
}

impl HalRegistry {
    pub fn new() -> (r: Self)
        ensures
            r.factories@.len() == 0,
    {
        HalRegistry { factories: Vec::new() }
    }

    fn find(&self, t: &NpuDeviceType) -> (r: Option<usize>)
        ensures
            r matches Some(i) ==> factory_index(self.factories@, *t, i as int),
            r is None <==> !has_factory(self.factories@, *t),
    {
        let mut i: usize = 0;
        while i < self.factories.len()
            invariant
                0 <= i <= self.factories@.len(),
                forall|j: int| 0 <= j < i ==> !same_device_type(#[trigger] self.factories@[j].0, *t),
            decreases self.factories@.len() - i,
        {
            if self.factories[i].0.same_as(t) {
                assert(factory_index(self.factories@, *t, i as int));
                return Some(i);
            }
            i = i + 1;
        }
        None
    }

    /// Registers a factory for a device type, replacing the one it had.
    pub fn register_factory(&mut self, device_type: NpuDeviceType, factory: HalFactory)
        ensures
            exists|i: int| factory_index(final(self).factories@, device_type, i) && final(self).factories@[i].1 == factory,
            final(self).factories@.len() == old(self).factories@.len() + if has_factory(old(self).factories@, device_type) { 0int } else { 1int },
            forall|j: int| 0 <= j < old(self).factories@.len() && !same_device_type(old(self).factories@[j].0, device_type)
                ==> #[trigger] final(self).factories@[j] == old(self).factories@[j],
    {
        match self.find(&device_type) {
            Some(i) => {
                let t = self.factories[i].0.duplicate();
                self.factories.set(i, (t, factory));
                assert(factory_index(self.factories@, device_type, i as int));
            },
            None => {
                let n = self.factories.len();
                self.factories.push((device_type, factory));
                assert(factory_index(self.factories@, device_type, n as int));
            },
        }
    }

    /// Builds the HAL registered for a device type; `ConfigError` when none is.
    pub fn create_hal(&self, device_type: &NpuDeviceType) -> (r: Result<NpuHal, NpuError>)
        ensures
            r is Err <==> !has_factory(self.factories@, *device_type),
            r is Err ==> r matches Err(NpuError::ConfigError(_)),
            r matches Ok(h) ==> exists|i: int| factory_index(self.factories@, *device_type, i) && match self.factories@[i].1 {
                HalFactory::Mock => h matches NpuHal::Mock(m) && m.devices@.len() == 0,
                HalFactory::AppleNeural { neural_engine_available } =>
                    h matches NpuHal::AppleNeural(a) && a.neural_engine_available == neural_engine_available,
            },
    {
        match self.find(device_type) {
            None => Err(NpuError::ConfigError(String::from_str("no factory registered for device type"))),
            Some(i) => match self.factories[i].1 {
                HalFactory::Mock => match MockNpuHal::new() {
                    Ok(h) => Ok(NpuHal::Mock(h)),
                    Err(e) => Err(e),
                },
                HalFactory::AppleNeural { neural_engine_available } => match AppleNeuralEngineHal::new(neural_engine_available) {
                    Ok(h) => Ok(NpuHal::AppleNeural(h)),
                    Err(e) => Err(e),
                },
            },
        }
    }

    /// The device types that have a factory, in registration order.
    pub fn supported_devices(&self) -> (r: Vec<NpuDeviceType>)
        ensures
            r@.len() == self.factories@.len(),
            forall|i: int| 0 <= i < r@.len() ==> same_device_type(#[trigger] r@[i], self.factories@[i].0),
    {
        let mut r: Vec<NpuDeviceType> = Vec::new();
        let mut i: usize = 0;
        while i < self.factories.len()
            invariant
                0 <= i <= self.factories@.len(),
                r@.len() == i,
                forall|j: int| 0 <= j < i ==> same_device_type(#[trigger] r@[j], self.factories@[j].0),
            decreases self.factories@.len() - i,
        {
            r.push(self.factories[i].0.duplicate());
            i = i + 1;
        }
        r
    }
}

} // verus!

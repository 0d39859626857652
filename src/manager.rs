//! The single entry point: one HAL, the devices it discovered, and the scheduler it
//! built for them.
use vstd::prelude::*;
use crate::apple::{APPLE_EXECUTION_TIME_US, apple_request_ok, is_new_apple_device};
use crate::capabilities::is_default_capabilities;
use crate::driver::{CoreMLModelHandle, is_handle_for};
use crate::device::{MOCK_EXECUTION_TIME_US, power_available};
use crate::hal::{MockNpuHal, NpuHal, all_wf, mirrors};
use crate::registry::{NpuDevice, find_device, has_id};
use crate::scheduler::{NpuScheduler, is_selected, next_in_queue, queued_on, running_on, some_eligible, stable_step};
use crate::tensor::request_well_formed;
use crate::types::{
    InferenceResponse, InferenceTask, NpuDeviceId, NpuError, NpuUsageStats,
    PowerState, ResourceAllocation, TaskStatus, STATUS_RUNNING,
};

verus! {

/// Owns the HAL, the discovered devices and the scheduler. Device `i` of the list is
/// device `i` of the scheduler.
#[derive(Debug)]
pub struct NpuManager {
    pub hal: NpuHal,
    pub devices: Vec<NpuDevice>,
    pub scheduler: NpuScheduler,
}

/// `m` is what starting on `hal` gives: the HAL's devices (those a mock HAL was given,
/// else one default mock device; one new Neural Engine for the Apple HAL), and no tasks.
pub open spec fn started_from(hal: NpuHal, m: NpuManager) -> bool {
    &&& m.wf()
    &&& m.scheduler.tasks@.len() == 0
    &&& (m.hal is Mock <==> hal is Mock)
    &&& (hal matches NpuHal::Mock(h) ==> (h.devices@.len() > 0 ==> (m.devices@.len() == h.devices@.len()
        && forall|i: int| 0 <= i < m.devices@.len() ==> m.devices@[i] == NpuDevice::Mock(#[trigger] h.devices@[i]))))
    &&& (hal matches NpuHal::Mock(h) ==> (h.devices@.len() == 0 ==> is_default_mock_manager(m)))
    &&& (hal matches NpuHal::AppleNeural(h) ==> (m.devices@.len() == 1
        && (m.devices@[0] matches NpuDevice::AppleNeural(a) && is_new_apple_device(a, h.neural_engine_available))))
}

/// A manager on the mock HAL with its one default mock device "mock-device", and no tasks.
pub open spec fn is_default_mock_manager(m: NpuManager) -> bool {
    &&& m.wf()
    &&& m.hal is Mock
    &&& m.devices@.len() == 1
    &&& m.devices@[0] is Mock
    &&& m.devices@[0].info_view().id@ == "mock-device"@
    &&& is_default_capabilities(m.devices@[0].caps_view())
    &&& m.devices@[0].available()
    &&& m.scheduler.tasks@.len() == 0
}

impl NpuManager {
    pub open spec fn wf(&self) -> bool {
        &&& self.hal.wf()
        &&& self.scheduler.wf()
        &&& all_wf(self.devices@)
        &&& mirrors(self.scheduler.devices@, self.devices@)
    }

    /// Discovers the HAL's devices and builds the scheduler for them.
    pub fn new(hal: NpuHal) -> (r: Result<Self, NpuError>)
        requires
            hal.wf(),
        ensures
            r matches Ok(m) && started_from(hal, m) && m.devices@.len() >= 1,
    {
        let mut hal = hal;
        let devices = match hal.discover_devices() {
            Ok(d) => d,
            Err(e) => return Err(e),
        };
        let scheduler = match hal.create_scheduler(&devices) {
            Ok(s) => s,
            Err(e) => return Err(e),
        };
        Ok(NpuManager { hal, devices, scheduler })
    }

    pub fn get_devices(&self) -> (r: &Vec<NpuDevice>)
        ensures
            r@ == self.devices@,
    {
        &self.devices
    }

    pub fn get_device(&self, device_id: &NpuDeviceId) -> (r: Option<&NpuDevice>)
        ensures
            r is None <==> !has_id(self.devices@, device_id@),
            r matches Some(d) ==> d.info_view().id@ == device_id@,
    {
        match find_device(&self.devices, device_id) {
            None => None,
            Some(i) => Some(&self.devices[i]),
        }
    }

    /// Admits a task (see `NpuScheduler::submit_task`).
    pub fn submit_task(&mut self, task: InferenceTask) -> (r: Result<usize, NpuError>)
        requires
            old(self).wf(),
        ensures
            final(self).wf(),
            final(self).devices == old(self).devices,
            stable_step(old(self).scheduler.tasks@, old(self).scheduler.statuses@, final(self).scheduler.tasks@, final(self).scheduler.statuses@),
            r is Err <==> !some_eligible(old(self).scheduler.devices@, task),
            r is Err ==> r matches Err(NpuError::InsufficientResources(_)),
            r is Err ==> final(self).scheduler.statuses@ == old(self).scheduler.statuses@,
            r matches Ok(id) ==> {
                &&& id == old(self).scheduler.tasks@.len()
                &&& forall|j: int| 0 <= j < old(self).scheduler.tasks@.len() ==> (#[trigger] old(self).scheduler.tasks@[j]).id != id
                &&& final(self).scheduler.statuses@ == old(self).scheduler.statuses@.push(TaskStatus::Queued)
                &&& is_selected(old(self).scheduler.devices@, old(self).scheduler.tasks@, old(self).scheduler.statuses@,
                    task, final(self).scheduler.tasks@[id as int].device as int)
                &&& final(self).scheduler.tasks@[id as int].allocation.memory_bytes == task.resource_requirements.memory_bytes
                &&& final(self).scheduler.tasks@[id as int].allocation.compute_units@ == task.resource_requirements.compute_units@
            },
    {
        self.scheduler.submit_task(task)
    }

    /// Cancels a task (see `NpuScheduler::cancel_task`); never an error.
    pub fn cancel_task(&mut self, task_id: usize) -> (r: Result<(), NpuError>)
        requires
            old(self).wf(),
        ensures
            r is Ok,
            final(self).wf(),
            final(self).devices == old(self).devices,
            stable_step(old(self).scheduler.tasks@, old(self).scheduler.statuses@, final(self).scheduler.tasks@, final(self).scheduler.statuses@),
            task_id < old(self).scheduler.tasks@.len() && old(self).scheduler.statuses@[task_id as int] is Queued
                ==> final(self).scheduler.statuses@ == old(self).scheduler.statuses@.update(task_id as int, TaskStatus::Cancelled),
            task_id < old(self).scheduler.tasks@.len() && old(self).scheduler.statuses@[task_id as int] is Running
                ==> final(self).scheduler.statuses == old(self).scheduler.statuses,
            !(task_id < old(self).scheduler.tasks@.len() && (old(self).scheduler.statuses@[task_id as int] is Queued
                || old(self).scheduler.statuses@[task_id as int] is Running))
                ==> final(self).scheduler.statuses == old(self).scheduler.statuses,
    {
        self.scheduler.cancel_task(task_id)
    }

    pub fn get_task_status(&self, task_id: usize) -> (r: Option<TaskStatus>)
        requires
            self.wf(),
        ensures
            task_id < self.scheduler.tasks@.len() ==> r == Some(self.scheduler.statuses@[task_id as int]),
            task_id >= self.scheduler.tasks@.len() ==> r is None,
    {
        self.scheduler.get_task_status(task_id)
    }

    pub fn get_allocation(&self, task_id: usize) -> (r: Option<&ResourceAllocation>)
        requires
            self.wf(),
        ensures
            task_id < self.scheduler.tasks@.len() ==> r == Some(&self.scheduler.tasks@[task_id as int].allocation),
            task_id >= self.scheduler.tasks@.len() ==> r is None,
    {
        self.scheduler.get_allocation(task_id)
    }

    pub fn get_usage_stats(&self) -> (r: NpuUsageStats)
        requires
            self.wf(),
        ensures
            r == self.scheduler.usage_view(),
    {
        self.scheduler.get_usage_stats()
    }

    /// Starts the next queued task of device `d` (see `NpuScheduler::dispatch`).
    pub fn dispatch(&mut self, d: usize) -> (r: Option<usize>)
        requires
            old(self).wf(),
            d < old(self).devices@.len(),
        ensures
            final(self).wf(),
            final(self).devices == old(self).devices,
            final(self).scheduler.tasks == old(self).scheduler.tasks,
            stable_step(old(self).scheduler.tasks@, old(self).scheduler.statuses@, final(self).scheduler.tasks@, final(self).scheduler.statuses@),
            r is None <==> !queued_on(old(self).scheduler.tasks@, old(self).scheduler.statuses@, d as int) || (
                !old(self).scheduler.devices@[d as int].capabilities.compute.concurrent_inference
                    && running_on(old(self).scheduler.tasks@, old(self).scheduler.statuses@, d as int)),
            r matches Some(i) ==> {
                &&& next_in_queue(old(self).scheduler.tasks@, old(self).scheduler.statuses@, d as int, i as int)
                &&& final(self).scheduler.statuses@ == old(self).scheduler.statuses@.update(i as int, TaskStatus::Running)
            },
    {
        self.scheduler.dispatch(d)
    }

    /// Records how a running task ended (see `NpuScheduler::finish_task`).
    pub fn finish_task(&mut self, task_id: usize, outcome: TaskStatus) -> (r: bool)
        requires
            old(self).wf(),
        ensures
            final(self).wf(),
            final(self).devices == old(self).devices,
            stable_step(old(self).scheduler.tasks@, old(self).scheduler.statuses@, final(self).scheduler.tasks@, final(self).scheduler.statuses@),
            r == (task_id < old(self).scheduler.tasks@.len() && old(self).scheduler.statuses@[task_id as int] is Running
                && crate::types::is_terminal(outcome)),
            !r ==> final(self).scheduler.statuses == old(self).scheduler.statuses,
            r ==> final(self).scheduler.statuses@ == old(self).scheduler.statuses@.update(
                task_id as int,
                if old(self).scheduler.cancel_requested@[task_id as int] { TaskStatus::Cancelled } else { outcome },
            ),
    {
        self.scheduler.finish_task(task_id, outcome)
    }

    /// Runs a running task on its mock device and records the outcome: `Completed`, or
    /// `Failed` with the error's text. A task that is not running is refused with
    /// `ConfigError`, and so is one placed on the Neural Engine, whose kernel the host
    /// runs between `prepare_engine_task` and `complete_engine_task`.
    pub fn run_task(&mut self, task_id: usize) -> (r: Result<InferenceResponse, NpuError>)
        requires
            old(self).wf(),
        ensures
            final(self).wf(),
            final(self).devices == old(self).devices,
            stable_step(old(self).scheduler.tasks@, old(self).scheduler.statuses@, final(self).scheduler.tasks@, final(self).scheduler.statuses@),
            !(task_id < old(self).scheduler.tasks@.len() && old(self).scheduler.statuses@[task_id as int] is Running)
                ==> (r matches Err(NpuError::ConfigError(_)) && final(self).scheduler.statuses == old(self).scheduler.statuses),
            task_id < old(self).scheduler.tasks@.len() && old(self).scheduler.statuses@[task_id as int] is Running ==> {
                let dev = old(self).devices@[old(self).scheduler.tasks@[task_id as int].device as int];
                let req = old(self).scheduler.tasks@[task_id as int].request;
                &&& (dev is AppleNeural ==> (r matches Err(NpuError::ConfigError(_))
                    && final(self).scheduler.statuses == old(self).scheduler.statuses))
                &&& (dev is Mock ==> {
                    &&& (r is Ok <==> dev.available() && request_well_formed(req, dev.caps_view().compute.supported_data_types@))
                    &&& (r matches Ok(resp) ==> resp.outputs@.len() == 1
                        && resp.outputs@[0].shape@ == req.inputs@[0].shape@
                        && resp.outputs@[0].data@ == req.inputs@[0].data@
                        && resp.device_id@ == dev.info_view().id@
                        && resp.execution_time_us == MOCK_EXECUTION_TIME_US)
                    &&& final(self).scheduler.statuses@[task_id as int] == (
                        if old(self).scheduler.cancel_requested@[task_id as int] {
                            TaskStatus::Cancelled
                        } else if r is Ok {
                            TaskStatus::Completed
                        } else {
                            final(self).scheduler.statuses@[task_id as int]
                        })
                    &&& (r is Err && !old(self).scheduler.cancel_requested@[task_id as int]
                        ==> final(self).scheduler.statuses@[task_id as int] is Failed)
                })
            },
    {
        if task_id >= self.scheduler.task_count() {
            return Err(NpuError::ConfigError(String::from_str("unknown task")));
        }
        if self.scheduler.statuses[task_id].kind() != STATUS_RUNNING {
            return Err(NpuError::ConfigError(String::from_str("task is not running")));
        }
        let d = self.scheduler.tasks[task_id].device;
        let result = match &self.devices[d] {
            NpuDevice::Mock(m) => m.execute_inference(&self.scheduler.tasks[task_id].request),
            NpuDevice::AppleNeural(_) => {
                return Err(NpuError::ConfigError(String::from_str("the task runs on the Neural Engine")));
            },
        };
        match &result {
            Ok(_) => {
                self.scheduler.finish_task(task_id, TaskStatus::Completed);
            },
            Err(e) => {
                self.scheduler.finish_task(task_id, TaskStatus::Failed(e.message()));
            },
        }
        result
    }

    /// Requests a power state for device `d`, and lets the scheduler know whether the
    /// device still takes work.
    pub fn set_power_state(&mut self, d: usize, state: PowerState) -> (r: Result<(), NpuError>)
        requires
            old(self).wf(),
            d < old(self).devices@.len(),
        ensures
            r is Ok,
            final(self).wf(),
            final(self).devices@.len() == old(self).devices@.len(),
            final(self).scheduler.tasks == old(self).scheduler.tasks,
            final(self).scheduler.statuses == old(self).scheduler.statuses,
            old(self).devices@[d as int] is Mock ==> final(self).devices@[d as int].available() == power_available(state),
            old(self).devices@[d as int] is AppleNeural ==> final(self).devices@[d as int] == old(self).devices@[d as int],
    {
        let ghost before = self.devices@;
        let mut dev = self.devices.remove(d);
        let ghost old_dev = dev;
        let _ = dev.set_power_state(state);
        let available = dev.is_available();
        let ghost new_dev = dev;
        self.devices.insert(d, dev);
        self.scheduler.set_device_available(d, available);
        proof {
            assert(before == old(self).devices@);
            assert(mirrors(old(self).scheduler.devices@, before));
            assert forall|i: int| 0 <= i < self.devices@.len() implies (#[trigger] self.devices@[i]).wf() by {
                if i != d {
                    assert(self.devices@[i] == before[i]);
                }
            }
            assert forall|i: int| 0 <= i < self.devices@.len() implies {
                &&& (#[trigger] self.scheduler.devices@[i]).id@ == self.devices@[i].info_view().id@
                &&& crate::types::same_device_type(self.scheduler.devices@[i].device_type, self.devices@[i].info_view().device_type)
                &&& *self.scheduler.devices@[i].capabilities == self.devices@[i].caps_view()
                &&& self.scheduler.devices@[i].available == self.devices@[i].available()
            } by {
                if i != d {
                    assert(self.devices@[i] == before[i]);
                    assert(self.scheduler.devices@[i] == old(self).scheduler.devices@[i]);
                } else {
                    assert(self.devices@[i] == new_dev);
                    assert(old_dev == before[i]);
                }
            }
        }
        Ok(())
    }

    /// First half of running a task on the Neural Engine: checks the request and loads
    /// its model through the driver's cache, returning the driver's handle for the host's
    /// kernel. A refused request marks the task `Failed`. A task that is not running, or
    /// not on the Neural Engine, is refused with `ConfigError`.
    pub fn prepare_engine_task(&mut self, task_id: usize) -> (r: Result<CoreMLModelHandle, NpuError>)
        requires
            old(self).wf(),
        ensures
            final(self).wf(),
            final(self).devices@.len() == old(self).devices@.len(),
            stable_step(old(self).scheduler.tasks@, old(self).scheduler.statuses@, final(self).scheduler.tasks@, final(self).scheduler.statuses@),
            !(task_id < old(self).scheduler.tasks@.len() && old(self).scheduler.statuses@[task_id as int] is Running
                && old(self).devices@[old(self).scheduler.tasks@[task_id as int].device as int] is AppleNeural)
                ==> (r matches Err(NpuError::ConfigError(_)) && final(self).scheduler.statuses == old(self).scheduler.statuses),
            r is Ok ==> final(self).scheduler.statuses == old(self).scheduler.statuses,
            r matches Ok(h) ==> is_handle_for(h, old(self).scheduler.tasks@[task_id as int].request.model_path@,
                h.is_neural_engine_optimized),
            task_id < old(self).scheduler.tasks@.len() && old(self).scheduler.statuses@[task_id as int] is Running
                && old(self).devices@[old(self).scheduler.tasks@[task_id as int].device as int] is AppleNeural ==> {
                let req = old(self).scheduler.tasks@[task_id as int].request;
                let caps = old(self).devices@[old(self).scheduler.tasks@[task_id as int].device as int].caps_view();
                &&& (r is Ok <==> apple_request_ok(req, caps) && req.model_path@.len() > 0)
                &&& (r is Err ==> !(r matches Err(NpuError::ConfigError(_))))
                &&& (r is Err ==> final(self).scheduler.statuses@ == old(self).scheduler.statuses@.update(
                    task_id as int,
                    if old(self).scheduler.cancel_requested@[task_id as int] {
                        TaskStatus::Cancelled
                    } else {
                        final(self).scheduler.statuses@[task_id as int]
                    },
                ))
                &&& (r is Err && !old(self).scheduler.cancel_requested@[task_id as int]
                    ==> final(self).scheduler.statuses@[task_id as int] is Failed)
            },
    {
        if task_id >= self.scheduler.task_count() {
            return Err(NpuError::ConfigError(String::from_str("unknown task")));
        }
        if self.scheduler.statuses[task_id].kind() != STATUS_RUNNING {
            return Err(NpuError::ConfigError(String::from_str("task is not running")));
        }
        let d = self.scheduler.tasks[task_id].device;
        match &self.devices[d] {
            NpuDevice::Mock(_) => {
                return Err(NpuError::ConfigError(String::from_str("the task runs on a mock device")));
            },
            NpuDevice::AppleNeural(_) => {},
        }
        let ghost before = self.devices@;
        let mut dev = self.devices.remove(d);
        let ghost old_dev = dev;
        let result = match &mut dev {
            NpuDevice::AppleNeural(a) => a.prepare_inference(&self.scheduler.tasks[task_id].request),
            NpuDevice::Mock(_) => Err(NpuError::ConfigError(String::from_str("the task runs on a mock device"))),
        };
        assert(dev.info_view() == old_dev.info_view());
        assert(dev.caps_view() == old_dev.caps_view());
        assert(dev.available() == old_dev.available());
        assert(dev.wf());
        let ghost new_dev = dev;
        self.devices.insert(d, dev);
        proof {
            assert(before == old(self).devices@);
            assert(self.scheduler == old(self).scheduler);
            assert(mirrors(self.scheduler.devices@, before));
            assert forall|i: int| 0 <= i < self.devices@.len() implies (#[trigger] self.devices@[i]).wf() by {
                if i != d {
                    assert(self.devices@[i] == before[i]);
                }
            }
            assert forall|i: int| 0 <= i < self.devices@.len() implies {
                &&& (#[trigger] self.scheduler.devices@[i]).id@ == self.devices@[i].info_view().id@
                &&& crate::types::same_device_type(self.scheduler.devices@[i].device_type, self.devices@[i].info_view().device_type)
                &&& *self.scheduler.devices@[i].capabilities == self.devices@[i].caps_view()
                &&& self.scheduler.devices@[i].available == self.devices@[i].available()
            } by {
                if i != d {
                    assert(self.devices@[i] == before[i]);
                } else {
                    assert(self.devices@[i] == new_dev);
                    assert(old_dev == before[i]);
                }
            }
        }
        match &result {
            Ok(_) => {},
            Err(e) => {
                self.scheduler.finish_task(task_id, TaskStatus::Failed(e.message()));
            },
        }
        result
    }

    /// Second half of running a task on the Neural Engine: wraps the kernel's output
    /// bytes, shaped and typed as the first input, and marks the task `Completed` (or
    /// `Cancelled`, if that was requested meanwhile). Refused with `ConfigError` for a
    /// task that is not running on the Neural Engine or has no input.
    pub fn complete_engine_task(&mut self, task_id: usize, output: Vec<u8>) -> (r: Result<InferenceResponse, NpuError>)
        requires
            old(self).wf(),
        ensures
            final(self).wf(),
            final(self).devices == old(self).devices,
            stable_step(old(self).scheduler.tasks@, old(self).scheduler.statuses@, final(self).scheduler.tasks@, final(self).scheduler.statuses@),
            r is Ok <==> task_id < old(self).scheduler.tasks@.len() && old(self).scheduler.statuses@[task_id as int] is Running
                && old(self).devices@[old(self).scheduler.tasks@[task_id as int].device as int] is AppleNeural
                && old(self).scheduler.tasks@[task_id as int].request.inputs@.len() > 0,
            r is Err ==> (r matches Err(NpuError::ConfigError(_)) && final(self).scheduler.statuses == old(self).scheduler.statuses),
            r matches Ok(resp) ==> {
                let req = old(self).scheduler.tasks@[task_id as int].request;
                &&& resp.outputs@.len() == 1
                &&& resp.outputs@[0].data@ == output@
                &&& resp.outputs@[0].shape@ == req.inputs@[0].shape@
                &&& resp.outputs@[0].data_type == req.inputs@[0].data_type
                &&& resp.execution_time_us == APPLE_EXECUTION_TIME_US
                &&& final(self).scheduler.statuses@ == old(self).scheduler.statuses@.update(
                    task_id as int,
                    if old(self).scheduler.cancel_requested@[task_id as int] { TaskStatus::Cancelled } else { TaskStatus::Completed },
                )
            },
    {
        if task_id >= self.scheduler.task_count() {
            return Err(NpuError::ConfigError(String::from_str("unknown task")));
        }
        if self.scheduler.statuses[task_id].kind() != STATUS_RUNNING {
            return Err(NpuError::ConfigError(String::from_str("task is not running")));
        }
        if self.scheduler.tasks[task_id].request.inputs.len() == 0 {
            return Err(NpuError::ConfigError(String::from_str("task has no input")));
        }
        let d = self.scheduler.tasks[task_id].device;
        let response = match &self.devices[d] {
            NpuDevice::AppleNeural(a) => a.complete_inference(&self.scheduler.tasks[task_id].request, output),
            NpuDevice::Mock(_) => {
                return Err(NpuError::ConfigError(String::from_str("the task runs on a mock device")));
            },
        };
        self.scheduler.finish_task(task_id, TaskStatus::Completed);
        Ok(response)
    }
}

/// Starts the subsystem on the hardware HAL the host detected, falling back to the
/// mock HAL when none was detected or the detected one cannot start. Never fails.
pub fn init_npu_subsystem(detected: Option<NpuHal>) -> (r: Result<NpuManager, NpuError>)
    requires
        detected matches Some(h) ==> h.wf(),
    ensures
        r matches Ok(m) && m.wf(),
        detected is None ==> (r matches Ok(m) && is_default_mock_manager(m)),
        detected matches Some(h) ==> (r matches Ok(m) && started_from(h, m)),
{
    match detected {
        Some(hal) => {
            match NpuManager::new(hal) {
                Ok(m) => {
                    return Ok(m);
                },
                Err(_) => {},
            }
        },
        None => {},
    }
    init_mock_npu_subsystem()
}

/// Starts the subsystem on the mock HAL, with its one default mock device.
pub fn init_mock_npu_subsystem() -> (r: Result<NpuManager, NpuError>)
    ensures
        r matches Ok(m) && is_default_mock_manager(m),
{
    let hal = match MockNpuHal::new() {
        Ok(h) => h,
        Err(e) => return Err(e),
    };
    let mut hal = NpuHal::Mock(hal);
    let devices = match hal.discover_devices() {
        Ok(d) => d,
        Err(e) => return Err(e),
    };
    let scheduler = match hal.create_scheduler(&devices) {
        Ok(s) => s,
        Err(e) => return Err(e),
    };
    Ok(NpuManager { hal, devices, scheduler })
}

} // verus!

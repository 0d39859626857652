use std::sync::Arc;

use agent_sdk::apple::AppleNeuralDevice;
use agent_sdk::capabilities::NpuCapabilities;
use agent_sdk::device::{MockNpuDevice, NpuDeviceInfo};
use agent_sdk::driver::AppleNeuralEngineDriver;
use agent_sdk::hal::{
    HalFactory, HalFeature, HalRegistry, MemoryHandle, MockNpuHal, ModelHandle, NpuHal,
};
use agent_sdk::manager::{init_mock_npu_subsystem, init_npu_subsystem, NpuManager};
use agent_sdk::registry::{DeviceDiscovery, DeviceManager, NpuDevice};
use agent_sdk::tensor::tensor_byte_len;
use agent_sdk::types::{
    ComputeUnit, DataType, InferenceInput, InferenceRequest, InferenceTask, MemoryType,
    ModelFormat, NpuDeviceId, NpuDeviceType, NpuError, NpuVendor, PowerState, ResourceAllocation,
    SchedulingHints, TaskPriority, TaskStatus,
};

const MIB: u64 = 1024 * 1024;
const GIB: u64 = 1024 * MIB;

fn float_input(values: &[f32], shape: Vec<u64>) -> InferenceInput {
    let mut data = Vec::new();
    for v in values {
        data.extend_from_slice(&v.to_le_bytes());
    }
    InferenceInput { data, shape, data_type: DataType::Float32 }
}

fn request(priority: TaskPriority) -> InferenceRequest {
    InferenceRequest {
        model_path: "models/test.onnx".to_string(),
        inputs: vec![float_input(&[1.0, 2.0, 3.0, 4.0], vec![1, 4])],
        timeout_ms: 1000,
        priority,
        agent_id: None,
        metadata: Vec::new(),
    }
}

fn task_with(units: Vec<ComputeUnit>, memory: u64, priority: TaskPriority, hints: SchedulingHints) -> InferenceTask {
    InferenceTask {
        id: 0,
        request: request(priority),
        priority,
        resource_requirements: ResourceAllocation {
            device_id: NpuDeviceId::new(""),
            compute_units: units,
            memory_bytes: memory,
            power_budget_milliwatts: 5000,
            timeout_ms: 1000,
        },
        scheduling_hints: hints,
    }
}

fn simple_task(priority: TaskPriority) -> InferenceTask {
    task_with(vec![ComputeUnit::TensorCore], MIB, priority, SchedulingHints::default())
}

fn mock(id: &str) -> MockNpuDevice {
    MockNpuDevice::with_capabilities(NpuDeviceId::new(id), NpuCapabilities::default())
}

fn manager_with(ids: &[&str]) -> NpuManager {
    let devices = ids.iter().map(|id| mock(id)).collect();
    NpuManager::new(NpuHal::Mock(MockNpuHal::with_devices(devices))).unwrap()
}

#[test]
fn default_capabilities_answer_queries() {
    let caps = NpuCapabilities::default();
    assert!(caps.supports_data_type(&DataType::Float16));
    assert!(!caps.supports_data_type(&DataType::Bool));
    assert!(caps.supports_model_format(&ModelFormat::Onnx));
    assert!(!caps.supports_model_format(&ModelFormat::CoreMl));
    assert!(!caps.supports_model_format(&ModelFormat::Custom("x".to_string())));
    assert!(caps.has_compute_unit(&ComputeUnit::TensorCore));
    assert!(!caps.has_compute_unit(&ComputeUnit::ScalarCore));
    assert_eq!(caps.get_core_count(&ComputeUnit::TensorCore), 8);
    assert_eq!(caps.get_core_count(&ComputeUnit::VectorCore), 4);
    assert_eq!(caps.get_core_count(&ComputeUnit::ScalarCore), 0);
    assert!(caps.supports_concurrent_inference());
    assert_eq!(caps.max_batch_size(), 32);
    assert_eq!(caps.available_memory(), 4 * GIB);
    assert!(caps.supports_memory_type(&MemoryType::Unified));
    assert!(!caps.supports_memory_type(&MemoryType::Hbm));
}

#[test]
fn custom_model_formats_compare_by_name() {
    let mut caps = NpuCapabilities::default();
    caps.model_support.supported_formats.push(ModelFormat::Custom("gguf".to_string()));
    assert!(caps.supports_model_format(&ModelFormat::Custom("gguf".to_string())));
    assert!(!caps.supports_model_format(&ModelFormat::Custom("ggml".to_string())));
}

#[test]
fn capability_query_is_stable() {
    let device = NpuDevice::Mock(mock("m"));
    let first = device.capabilities();
    let second = device.capabilities();
    assert!(Arc::ptr_eq(&first, &second));
    assert_eq!(first.memory.total_memory_bytes, second.memory.total_memory_bytes);
    assert_eq!(first.compute.compute_units, second.compute.compute_units);
    assert_eq!(first.performance, second.performance);
}

#[test]
fn memory_allocation_round_trip() {
    let mut device = MockNpuDevice::new().unwrap();
    let h = device.allocate_memory(GIB).unwrap();
    device.free_memory(h).unwrap();
    let again = device.allocate_memory(GIB).unwrap();
    assert_ne!(h, again);
    let info = device.get_memory_info().unwrap();
    assert_eq!(info[0].available_bytes, 3 * GIB);
}

#[test]
fn allocation_limits_give_insufficient_resources() {
    let mut device = MockNpuDevice::new().unwrap();
    assert!(matches!(device.allocate_memory(GIB + 1), Err(NpuError::InsufficientResources(_))));
    for _ in 0..4 {
        device.allocate_memory(GIB).unwrap();
    }
    assert!(matches!(device.allocate_memory(1), Err(NpuError::InsufficientResources(_))));
    assert_eq!(device.get_memory_info().unwrap()[0].available_bytes, 0);
}

#[test]
fn freeing_an_unknown_handle_is_rejected() {
    let mut device = MockNpuDevice::new().unwrap();
    let h = device.allocate_memory(10).unwrap();
    device.free_memory(h).unwrap();
    match device.free_memory(h) {
        Err(NpuError::DeviceNotFound(id)) => assert_eq!(id.as_str(), "mock-device"),
        other => panic!("unexpected {:?}", other),
    }
    assert!(device.free_memory(MemoryHandle::new(999)).is_err());
}

#[test]
fn mock_loads_give_independent_handles() {
    let mut device = MockNpuDevice::new().unwrap();
    let a = device.load_model("m.onnx").unwrap();
    let b = device.load_model("m.onnx").unwrap();
    assert_ne!(a, b);
    device.unload_model(a).unwrap();
    device.unload_model(b).unwrap();
    assert!(device.unload_model(a).is_err());
}

#[test]
fn empty_model_path_is_a_load_error() {
    let mut device = MockNpuDevice::new().unwrap();
    assert!(matches!(device.load_model(""), Err(NpuError::ModelLoadError(_))));
}

#[test]
fn driver_loads_a_path_once() {
    let mut driver = AppleNeuralEngineDriver::new(true).unwrap();
    let first = driver.load_model("models/net.mlmodel").unwrap();
    let second = driver.load_model("models/net.mlmodel").unwrap();
    assert_eq!(driver.loaded_model_count(), 1);
    assert_eq!(first.path, second.path);
    assert_eq!(first.input_names, vec!["input".to_string()]);
    assert_eq!(second.output_names, vec!["output".to_string()]);
    assert!(first.is_neural_engine_optimized);
    driver.load_model("models/other.mlmodel").unwrap();
    assert_eq!(driver.loaded_model_count(), 2);
    assert!(matches!(driver.load_model(""), Err(NpuError::ModelLoadError(_))));
    assert_eq!(driver.loaded_model_count(), 2);
    assert!(driver.is_neural_engine_available());
    assert!(driver.capabilities().contains("15.8 TOPS"));
}

#[test]
fn generated_device_ids_are_fresh_uuids() {
    let a = NpuDeviceId::generate();
    let b = NpuDeviceId::generate();
    assert_eq!(a.as_str().len(), 36);
    assert_ne!(a, b);
    assert_eq!(a.as_str().matches('-').count(), 4);
}

#[test]
fn apple_device_handles_are_distinct_and_tracked() {
    let mut device = AppleNeuralDevice::new(false).unwrap();
    assert_eq!(device.id().as_str().len(), 36);
    let a = device.load_model("net.mlmodel").unwrap();
    let b = device.load_model("net.mlmodel").unwrap();
    assert_ne!(a, b);
    assert_eq!(device.driver.loaded_model_count(), 1);
    device.unload_model(a).unwrap();
    assert!(device.unload_model(a).is_err());
    device.reset().unwrap();
    assert!(matches!(device.unload_model(b), Err(NpuError::DeviceNotFound(_))));
    assert_eq!(device.get_power_state().unwrap(), PowerState::Active);
    device.set_power_state(PowerState::Suspended).unwrap();
    assert_eq!(device.get_power_state().unwrap(), PowerState::Active);
}

#[test]
fn task_ids_are_unique_and_start_queued() {
    let mut manager = manager_with(&["d0", "d1"]);
    let mut ids = Vec::new();
    for _ in 0..5 {
        let id = manager.submit_task(simple_task(TaskPriority::Normal)).unwrap();
        assert_eq!(manager.get_task_status(id), Some(TaskStatus::Queued));
        ids.push(id);
    }
    let mut sorted = ids.clone();
    sorted.dedup();
    assert_eq!(sorted.len(), 5);
    assert_eq!(ids, vec![0, 1, 2, 3, 4]);
    assert_eq!(manager.get_task_status(5), None);
}

#[test]
fn terminal_status_is_stable() {
    let mut manager = manager_with(&["d0"]);
    let id = manager.submit_task(simple_task(TaskPriority::Normal)).unwrap();
    assert_eq!(manager.dispatch(0), Some(id));
    assert!(manager.run_task(id).is_ok());
    assert_eq!(manager.get_task_status(id), Some(TaskStatus::Completed));
    manager.cancel_task(id).unwrap();
    assert_eq!(manager.get_task_status(id), Some(TaskStatus::Completed));
    assert!(!manager.finish_task(id, TaskStatus::TimedOut));
    assert_eq!(manager.get_task_status(id), Some(TaskStatus::Completed));
    assert_eq!(manager.dispatch(0), None);
}

#[test]
fn avoiding_every_device_fails_admission() {
    let mut manager = manager_with(&["d0", "d1"]);
    let hints = SchedulingHints {
        avoid_devices: vec![NpuDeviceId::new("d0"), NpuDeviceId::new("d1")],
        ..SchedulingHints::default()
    };
    let result = manager.submit_task(task_with(vec![ComputeUnit::TensorCore], MIB, TaskPriority::High, hints));
    assert!(matches!(result, Err(NpuError::InsufficientResources(_))));
    assert_eq!(manager.get_usage_stats().queued_tasks, 0);
    assert_eq!(manager.get_task_status(0), None);
}

#[test]
fn single_mock_device_runs_a_task() {
    let mut manager = manager_with(&["mock-0"]);
    let id = manager
        .submit_task(task_with(vec![ComputeUnit::TensorCore], MIB, TaskPriority::Normal, SchedulingHints::default()))
        .unwrap();
    let allocation = manager.get_allocation(id).unwrap();
    assert_eq!(allocation.device_id.as_str(), "mock-0");
    assert_eq!(allocation.memory_bytes, MIB);
    assert_eq!(allocation.compute_units, vec![ComputeUnit::TensorCore]);
    assert_eq!(manager.dispatch(0), Some(id));
    let response = manager.run_task(id).unwrap();
    assert_eq!(response.outputs.len(), 1);
    assert_eq!(response.outputs[0].shape, vec![1, 4]);
    assert_eq!(response.outputs[0].data, float_input(&[1.0, 2.0, 3.0, 4.0], vec![1, 4]).data);
    assert_eq!(response.device_id.as_str(), "mock-0");
    assert_eq!(manager.get_task_status(id), Some(TaskStatus::Completed));
}

#[test]
fn priorities_dispatch_in_order() {
    let mut manager = manager_with(&["only"]);
    let low = manager.submit_task(simple_task(TaskPriority::Low)).unwrap();
    let critical = manager.submit_task(simple_task(TaskPriority::Critical)).unwrap();
    let normal = manager.submit_task(simple_task(TaskPriority::Normal)).unwrap();
    let mut order = Vec::new();
    while let Some(id) = manager.dispatch(0) {
        order.push(id);
        manager.run_task(id).unwrap();
    }
    assert_eq!(order, vec![critical, normal, low]);
}

#[test]
fn equal_priorities_dispatch_in_submission_order() {
    let mut manager = manager_with(&["only"]);
    let a = manager.submit_task(simple_task(TaskPriority::High)).unwrap();
    let b = manager.submit_task(simple_task(TaskPriority::High)).unwrap();
    let c = manager.submit_task(simple_task(TaskPriority::Background)).unwrap();
    assert_eq!(manager.dispatch(0), Some(a));
    assert_eq!(manager.dispatch(0), Some(b));
    assert_eq!(manager.dispatch(0), Some(c));
    assert_eq!(manager.dispatch(0), None);
}

#[test]
fn reset_invalidates_model_handles() {
    let mut device = NpuDevice::Mock(MockNpuDevice::new().unwrap());
    let a = device.load_model("a.onnx").unwrap();
    let b = device.load_model("b.onnx").unwrap();
    device.reset().unwrap();
    assert!(matches!(device.unload_model(a), Err(NpuError::DeviceNotFound(_))));
    assert!(matches!(device.unload_model(b), Err(NpuError::DeviceNotFound(_))));
}

#[test]
fn shutdown_releases_handles() {
    let mut device = NpuDevice::Mock(MockNpuDevice::new().unwrap());
    let m = device.load_model("a.onnx").unwrap();
    let h = device.allocate_memory(MIB).unwrap();
    device.shutdown().unwrap();
    assert!(device.unload_model(m).is_err());
    assert!(device.free_memory(h).is_err());
    assert!(!device.is_available());
    device.init().unwrap();
    assert!(device.is_available());
}

#[test]
fn cancel_queued_running_and_unknown_tasks() {
    let mut manager = manager_with(&["d0"]);
    let first = manager.submit_task(simple_task(TaskPriority::Normal)).unwrap();
    let second = manager.submit_task(simple_task(TaskPriority::Normal)).unwrap();
    manager.cancel_task(second).unwrap();
    assert_eq!(manager.get_task_status(second), Some(TaskStatus::Cancelled));
    assert_eq!(manager.dispatch(0), Some(first));
    manager.cancel_task(first).unwrap();
    assert_eq!(manager.get_task_status(first), Some(TaskStatus::Running));
    assert!(manager.run_task(first).is_ok());
    assert_eq!(manager.get_task_status(first), Some(TaskStatus::Cancelled));
    assert!(manager.cancel_task(77).is_ok());
    assert_eq!(manager.dispatch(0), None);
}

#[test]
fn timed_out_and_failed_outcomes_are_recorded() {
    let mut manager = manager_with(&["d0"]);
    let a = manager.submit_task(simple_task(TaskPriority::Normal)).unwrap();
    let mut bad = simple_task(TaskPriority::Normal);
    bad.request.inputs[0].shape = vec![2, 4];
    let b = manager.submit_task(bad).unwrap();
    assert_eq!(manager.dispatch(0), Some(a));
    assert!(manager.finish_task(a, TaskStatus::TimedOut));
    assert!(!manager.finish_task(a, TaskStatus::Completed));
    assert_eq!(manager.dispatch(0), Some(b));
    assert!(matches!(manager.run_task(b), Err(NpuError::InferenceFailed(_))));
    assert!(matches!(manager.get_task_status(b), Some(TaskStatus::Failed(_))));
    let stats = manager.get_usage_stats();
    assert_eq!(stats.tasks_timed_out, 1);
    assert_eq!(stats.tasks_failed, 1);
    assert_eq!(stats.queued_tasks, 0);
    assert_eq!(stats.running_tasks, 0);
}

#[test]
fn running_a_task_that_is_not_running_is_a_config_error() {
    let mut manager = manager_with(&["d0"]);
    let id = manager.submit_task(simple_task(TaskPriority::Normal)).unwrap();
    assert!(matches!(manager.run_task(id), Err(NpuError::ConfigError(_))));
    assert!(matches!(manager.run_task(42), Err(NpuError::ConfigError(_))));
    assert!(!manager.finish_task(id, TaskStatus::Queued));
}

#[test]
fn placement_prefers_least_loaded_then_smallest_id() {
    let mut manager = manager_with(&["b-dev", "a-dev"]);
    let first = manager.submit_task(simple_task(TaskPriority::Normal)).unwrap();
    assert_eq!(manager.get_allocation(first).unwrap().device_id.as_str(), "a-dev");
    let second = manager.submit_task(simple_task(TaskPriority::Normal)).unwrap();
    assert_eq!(manager.get_allocation(second).unwrap().device_id.as_str(), "b-dev");
    let third = manager.submit_task(simple_task(TaskPriority::Normal)).unwrap();
    assert_eq!(manager.get_allocation(third).unwrap().device_id.as_str(), "a-dev");
}

#[test]
fn placement_honours_preferences_and_hard_constraints() {
    let mut caps = NpuCapabilities::default();
    caps.memory.supported_memory_types = vec![MemoryType::Hbm];
    caps.compute.compute_units = vec![ComputeUnit::ScalarCore];
    let hbm = MockNpuDevice::with_capabilities(NpuDeviceId::new("z-hbm"), caps);
    let devices = vec![mock("a-plain"), hbm];
    let mut manager = NpuManager::new(NpuHal::Mock(MockNpuHal::with_devices(devices))).unwrap();

    let needs_hbm = SchedulingHints { required_memory_type: Some(MemoryType::Hbm), ..SchedulingHints::default() };
    let id = manager.submit_task(task_with(vec![], MIB, TaskPriority::Normal, needs_hbm)).unwrap();
    assert_eq!(manager.get_allocation(id).unwrap().device_id.as_str(), "z-hbm");

    let needs_tensor_and_hbm = SchedulingHints { required_memory_type: Some(MemoryType::Hbm), ..SchedulingHints::default() };
    let refused = manager.submit_task(task_with(vec![ComputeUnit::TensorCore], MIB, TaskPriority::Normal, needs_tensor_and_hbm));
    assert!(matches!(refused, Err(NpuError::InsufficientResources(_))));

    // Memory capacity is no admission constraint: the task is placed on the idle device.
    let big = manager.submit_task(task_with(vec![], 5 * GIB, TaskPriority::Normal, SchedulingHints::default())).unwrap();
    assert_eq!(manager.get_allocation(big).unwrap().device_id.as_str(), "a-plain");

    let prefers_cpu = SchedulingHints { preferred_devices: vec![NpuDeviceType::CpuFallback], ..SchedulingHints::default() };
    let fallback = manager.submit_task(task_with(vec![], MIB, TaskPriority::Normal, prefers_cpu)).unwrap();
    assert_eq!(manager.get_allocation(fallback).unwrap().device_id.as_str(), "a-plain");
}

#[test]
fn offline_device_fails_its_tasks_at_execution() {
    let mut manager = manager_with(&["d0", "d1"]);
    manager.set_power_state(0, PowerState::Offline).unwrap();
    let stats = manager.get_usage_stats();
    assert_eq!(stats.total_devices, 2);
    assert_eq!(stats.active_devices, 1);
    let id = manager.submit_task(simple_task(TaskPriority::Normal)).unwrap();
    assert_eq!(manager.get_allocation(id).unwrap().device_id.as_str(), "d0");
    assert_eq!(manager.dispatch(0), Some(id));
    assert!(matches!(manager.run_task(id), Err(NpuError::DeviceUnavailable(_))));
    assert!(matches!(manager.get_task_status(id), Some(TaskStatus::Failed(_))));
}

#[test]
fn usage_stats_report_memory_and_power() {
    let mut manager = manager_with(&["d0", "d1"]);
    let a = manager.submit_task(task_with(vec![], GIB, TaskPriority::Normal, SchedulingHints::default())).unwrap();
    let stats = manager.get_usage_stats();
    assert_eq!(stats.memory_total_bytes, 8 * GIB);
    assert_eq!(stats.memory_in_use_bytes, 0);
    assert_eq!(stats.power_consumption_milliwatts, 0);
    assert_eq!(manager.dispatch(0), Some(a));
    let stats = manager.get_usage_stats();
    assert_eq!(stats.memory_in_use_bytes, GIB);
    assert_eq!(stats.memory_utilization_permille, 125);
    assert_eq!(stats.power_consumption_milliwatts, 10000);
}

#[test]
fn apple_record_model_refuses_a_taken_handle() {
    let mut device = AppleNeuralDevice::new(false).unwrap();
    let h = device.record_model(7, "a.mlmodel").unwrap();
    assert_eq!(h, ModelHandle::new(7));
    assert!(matches!(device.record_model(7, "b.mlmodel"), Err(NpuError::DriverError(_))));
    let other = device.record_model(8, "b.mlmodel").unwrap();
    device.unload_model(h).unwrap();
    device.unload_model(other).unwrap();
}

#[test]
fn unloading_one_handle_keeps_the_others() {
    let mut device = NpuDevice::Mock(MockNpuDevice::new().unwrap());
    let a = device.load_model("m.onnx").unwrap();
    let b = device.load_model("m.onnx").unwrap();
    device.unload_model(a).unwrap();
    assert!(device.unload_model(b).is_ok());
}

#[test]
fn capability_well_formedness() {
    let mut caps = NpuCapabilities::default();
    assert!(caps.is_well_formed());
    caps.compute.core_counts.push((ComputeUnit::TensorCore, 2));
    assert!(!caps.is_well_formed());
}

#[test]
fn unavailable_device_refuses_inference() {
    let mut device = MockNpuDevice::new().unwrap();
    device.set_power_state(PowerState::Offline).unwrap();
    assert!(matches!(device.execute_inference(&request(TaskPriority::Normal)), Err(NpuError::DeviceUnavailable(_))));
    device.set_power_state(PowerState::PowerSave).unwrap();
    assert!(device.execute_inference(&request(TaskPriority::Normal)).is_ok());
    let mut empty = request(TaskPriority::Normal);
    empty.inputs.clear();
    assert!(matches!(device.execute_inference(&empty), Err(NpuError::InferenceFailed(_))));
    let mut unsupported = request(TaskPriority::Normal);
    unsupported.inputs[0].data_type = DataType::Bool;
    unsupported.inputs[0].data.truncate(4);
    assert!(matches!(device.execute_inference(&unsupported), Err(NpuError::InferenceFailed(_))));
}

#[test]
fn usage_stats_count_busy_devices() {
    let mut manager = manager_with(&["d0", "d1"]);
    let a = manager.submit_task(simple_task(TaskPriority::Normal)).unwrap();
    manager.submit_task(simple_task(TaskPriority::Normal)).unwrap();
    manager.submit_task(simple_task(TaskPriority::Normal)).unwrap();
    assert_eq!(manager.dispatch(0), Some(a));
    let stats = manager.get_usage_stats();
    assert_eq!(stats.busy_devices, 1);
    assert_eq!(stats.compute_utilization_permille, 500);
    assert_eq!(stats.running_tasks, 1);
    assert_eq!(stats.queued_tasks, 2);
    manager.run_task(a).unwrap();
    assert_eq!(manager.get_usage_stats().tasks_completed, 1);
}

#[test]
fn tensor_sizes() {
    assert_eq!(tensor_byte_len(&vec![1, 4], DataType::Float32), Some(16));
    assert_eq!(tensor_byte_len(&vec![], DataType::Int16), Some(2));
    assert_eq!(tensor_byte_len(&vec![3, 0, 5], DataType::UInt8), Some(0));
    assert_eq!(tensor_byte_len(&vec![u64::MAX, 2], DataType::Int8), None);
    assert_eq!(tensor_byte_len(&vec![1 << 40, 1 << 40, 0], DataType::Float32), Some(0));
}

#[test]
fn hal_info_and_registry() {
    let mock_hal = NpuHal::Mock(MockNpuHal::new().unwrap());
    let info = mock_hal.get_hal_info();
    assert_eq!(info.name, "Mock HAL");
    assert_eq!(info.version, "1.0.0");
    assert_eq!(info.features, vec![HalFeature::DynamicModels, HalFeature::PowerManagement]);

    let mut registry = HalRegistry::new();
    assert!(matches!(registry.create_hal(&NpuDeviceType::Mock), Err(NpuError::ConfigError(_))));
    registry.register_factory(NpuDeviceType::Mock, HalFactory::Mock);
    registry.register_factory(NpuDeviceType::AppleNeuralEngine, HalFactory::AppleNeural { neural_engine_available: false });
    registry.register_factory(NpuDeviceType::Mock, HalFactory::Mock);
    assert_eq!(registry.supported_devices(), vec![NpuDeviceType::Mock, NpuDeviceType::AppleNeuralEngine]);
    assert!(matches!(registry.create_hal(&NpuDeviceType::Mock), Ok(NpuHal::Mock(_))));
    let apple = registry.create_hal(&NpuDeviceType::AppleNeuralEngine).unwrap();
    assert_eq!(apple.get_hal_info().name, "Apple Neural Engine HAL");
    assert!(matches!(registry.create_hal(&NpuDeviceType::Unknown("tpu".to_string())), Err(NpuError::ConfigError(_))));
}

#[test]
fn subsystem_start_falls_back_to_mock() {
    let mock = init_npu_subsystem(None).unwrap();
    assert_eq!(mock.get_devices().len(), 1);
    assert_eq!(mock.get_devices()[0].id().as_str(), "mock-device");
    let explicit = init_mock_npu_subsystem().unwrap();
    assert!(explicit.get_device(&NpuDeviceId::new("mock-device")).is_some());
    assert!(explicit.get_device(&NpuDeviceId::new("nope")).is_none());
}

#[test]
fn apple_tasks_run_in_two_halves() {
    let hal = NpuHal::AppleNeural(agent_sdk::hal::AppleNeuralEngineHal::new(true).unwrap());
    let mut manager = init_npu_subsystem(Some(hal)).unwrap();
    assert!(matches!(manager.get_devices()[0], NpuDevice::AppleNeural(_)));
    let mut task = simple_task(TaskPriority::Normal);
    task.request.model_path = "net.mlmodel".to_string();
    let id = manager.submit_task(task).unwrap();
    assert_eq!(manager.dispatch(0), Some(id));
    assert!(matches!(manager.run_task(id), Err(NpuError::ConfigError(_))));
    let handle = manager.prepare_engine_task(id).unwrap();
    assert_eq!(handle.path, "net.mlmodel");
    assert!(handle.is_neural_engine_optimized);
    let response = manager.complete_engine_task(id, vec![9, 9, 9, 9]).unwrap();
    assert_eq!(response.outputs[0].data, vec![9, 9, 9, 9]);
    assert_eq!(response.outputs[0].shape, vec![1, 4]);
    assert_eq!(response.execution_time_us, 500);
    assert_eq!(manager.get_task_status(id), Some(TaskStatus::Completed));
}

#[test]
fn device_registry_operations() {
    let mut registry = DeviceManager::new();
    registry.add_device(NpuDevice::Mock(mock("x")));
    registry.add_device(NpuDevice::Mock(mock("y")));
    registry.add_device(NpuDevice::Mock(mock("x")));
    assert_eq!(registry.get_all_devices().len(), 2);
    assert!(registry.get_device(&NpuDeviceId::new("y")).is_some());
    assert_eq!(registry.get_devices_by_type(&NpuDeviceType::Mock).len(), 2);
    assert!(registry.get_devices_by_type(&NpuDeviceType::IntelNpu).is_empty());
    registry.init_all_devices().unwrap();
    assert_eq!(registry.get_available_devices().len(), 2);
    registry.shutdown_all_devices().unwrap();
    assert!(registry.get_available_devices().is_empty());
    let removed = registry.remove_device(&NpuDeviceId::new("x")).unwrap();
    assert_eq!(removed.id().as_str(), "x");
    assert!(registry.remove_device(&NpuDeviceId::new("x")).is_none());
    assert_eq!(registry.get_all_devices().len(), 1);
}

#[test]
fn discovery_skips_failed_probes() {
    let probes = vec![
        Ok(vec![NpuDevice::Mock(mock("first-probe"))]),
        Err(NpuError::HardwareError("probe failed".to_string())),
        Ok(vec![NpuDevice::Mock(mock("third-probe-a")), NpuDevice::Mock(mock("third-probe-b"))]),
    ];
    let found = DeviceDiscovery::discover_all(probes);
    let ids: Vec<String> = found.iter().map(|d| d.id().as_str().to_string()).collect();
    assert_eq!(ids, vec!["first-probe", "third-probe-a", "third-probe-b"]);
}

#[test]
fn device_info_builders() {
    let info = NpuDeviceInfo::new(
        NpuDeviceId::new("d"),
        "Device".to_string(),
        NpuDeviceType::IntelNpu,
        NpuVendor::Intel,
    )
    .with_driver_version("2.0".to_string())
    .with_firmware_version("fw".to_string())
    .with_serial_number("sn".to_string())
    .with_pci_id("pci".to_string())
    .with_numa_node(3);
    assert_eq!(info.driver_version, "2.0");
    assert_eq!(info.firmware_version.as_deref(), Some("fw"));
    assert_eq!(info.serial_number.as_deref(), Some("sn"));
    assert_eq!(info.pci_id.as_deref(), Some("pci"));
    assert_eq!(info.numa_node, Some(3));
    let plain = NpuDeviceInfo::new(NpuDeviceId::new("e"), "E".to_string(), NpuDeviceType::Mock, NpuVendor::Google);
    assert_eq!(plain.driver_version, "1.0.0");
    assert_eq!(plain.numa_node, None);
}

#[test]
fn handles_and_errors() {
    assert_eq!(ModelHandle::new(7).id(), 7);
    assert_eq!(MemoryHandle::new(9).id(), 9);
    assert!(NpuError::Timeout.is_retryable());
    assert!(NpuError::DeviceUnavailable("busy".to_string()).is_retryable());
    assert!(!NpuError::ConfigError("bad".to_string()).is_retryable());
    assert_eq!(NpuError::DriverError("oops".to_string()).message(), "oops");
    assert_eq!(NpuError::DeviceNotFound(NpuDeviceId::new("d9")).message(), "d9");
    assert_eq!(TaskPriority::default(), TaskPriority::Normal);
    assert!(TaskPriority::Critical < TaskPriority::Background);
}

#[test]
fn health_and_telemetry() {
    let device = NpuDevice::Mock(MockNpuDevice::new().unwrap());
    let health = device.get_health().unwrap();
    assert!(health.is_healthy);
    assert_eq!(health.temperature_millicelsius, 35000);
    assert_eq!(device.get_temperature(), 35000);
    assert_eq!(device.get_utilization(), 100);
    assert_eq!(device.get_power_state().unwrap(), PowerState::Active);
    let memory = device.get_memory_info().unwrap();
    assert_eq!(memory[0].total_bytes, 4 * GIB);
}

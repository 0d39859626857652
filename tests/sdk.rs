use agent_sdk::agent::{AgentBuilder, AgentConfig};
use agent_sdk::agent_types::{AgentCapabilities, NPUCapabilities, NPUDevice, NPUPool, NPUStatus};
use agent_sdk::agent_types::Precision;
use agent_sdk::files::FileSizeCategory;
use agent_sdk::ml::{text_to_tokens, ModelConfig};

#[test]
fn test_text_to_tokens() {
    let tokens = text_to_tokens("Hello", 10);
    assert_eq!(tokens.len(), 10);
    assert_eq!(tokens[0], 'H' as u32);
    assert_eq!(tokens[5], 0);
}

#[test]
fn types_test_agent_capabilities() {
    let caps = AgentCapabilities {
        can_inference: true,
        can_training: false,
        supported_models: vec!["gpt".to_string(), "bert".to_string()],
        max_tensor_size: 1024 * 1024,
        preferred_npu: Some(0),
    };

    assert!(caps.can_inference);
    assert!(!caps.can_training);
    assert_eq!(caps.supported_models.len(), 2);
}

#[test]
fn test_file_size_category() {
    assert!(matches!(FileSizeCategory::from_size(500_000), FileSizeCategory::Small));
    assert!(matches!(FileSizeCategory::from_size(50_000_000), FileSizeCategory::Medium));
    assert!(matches!(FileSizeCategory::from_size(500_000_000), FileSizeCategory::Large));
    assert!(matches!(FileSizeCategory::from_size(2_000_000_000), FileSizeCategory::XLarge));
}

#[test]
fn file_size_category_boundaries() {
    assert_eq!(FileSizeCategory::from_size(0), FileSizeCategory::Small);
    assert_eq!(FileSizeCategory::from_size(1_048_576), FileSizeCategory::Small);
    assert_eq!(FileSizeCategory::from_size(1_048_577), FileSizeCategory::Medium);
    assert_eq!(FileSizeCategory::from_size(104_857_600), FileSizeCategory::Medium);
    assert_eq!(FileSizeCategory::from_size(104_857_601), FileSizeCategory::Large);
    assert_eq!(FileSizeCategory::from_size(1_073_741_824), FileSizeCategory::Large);
    assert_eq!(FileSizeCategory::from_size(1_073_741_825), FileSizeCategory::XLarge);
    assert_eq!(FileSizeCategory::from_size(u64::MAX), FileSizeCategory::XLarge);
}

#[test]
fn text_to_tokens_truncates_and_handles_unicode() {
    assert_eq!(text_to_tokens("Hello", 3), vec!['H' as u32, 'e' as u32, 'l' as u32]);
    assert_eq!(text_to_tokens("", 2), vec![0, 0]);
    assert_eq!(text_to_tokens("héllo", 2), vec!['h' as u32, 0xE9]);
    assert!(text_to_tokens("abc", 0).is_empty());
}

#[test]
fn agent_builder_sets_every_field() {
    let config = AgentBuilder::new("test_agent")
        .with_ai_inference()
        .with_training()
        .with_message_queue_size(42)
        .with_models(vec!["gpt".to_string()])
        .config();
    assert_eq!(config.name, "test_agent");
    assert!(config.capabilities.can_inference);
    assert!(config.capabilities.can_training);
    assert_eq!(config.max_message_queue_size, 42);
    assert_eq!(config.capabilities.supported_models, vec!["gpt".to_string()]);
}

#[test]
fn agent_builder_defaults() {
    let config = AgentBuilder::new("a").config();
    assert_eq!(config.max_message_queue_size, 1000);
    assert!(!config.capabilities.can_inference);
    let replaced = AgentBuilder::new("b")
        .with_capabilities(AgentCapabilities { max_tensor_size: 7, ..AgentCapabilities::default() })
        .config();
    assert_eq!(replaced.capabilities.max_tensor_size, 7);
    let unnamed = AgentConfig::default();
    assert_eq!(unnamed.name, "unnamed_agent");
}

#[test]
fn model_config_default_is_an_image_classifier() {
    let c = ModelConfig::default();
    assert_eq!(c.model_id, "default_model");
    assert_eq!(c.model_path, "model.onnx");
    assert_eq!(c.input_shape, vec![1, 3, 224, 224]);
    assert_eq!(c.output_shape, vec![1, 1000]);
    assert_eq!(c.precision, Precision::FP32);
    assert_eq!(c.batch_size, 1);
}

#[test]
fn test_npu_pool_allocation() {
    let mut pool = NPUPool::new();

    let npu = NPUDevice {
        id: 0,
        name: "TestNPU".to_string(),
        capabilities: NPUCapabilities::default(),
        status: NPUStatus::Idle,
        current_model: None,
        allocated_to: None,
    };

    pool.add_device(npu);

    let allocated_id = pool.allocate_npu(1);
    assert_eq!(allocated_id, Some(0));

    // Should not allocate the same NPU again
    let second_allocation = pool.allocate_npu(2);
    assert_eq!(second_allocation, None);

    // Deallocate and try again
    assert!(pool.deallocate_npu(0));
    let third_allocation = pool.allocate_npu(2);
    assert_eq!(third_allocation, Some(0));
}

#[test]
fn pool_skips_busy_and_unknown_devices() {
    let mut pool = NPUPool::new();
    for (id, status) in [(3, NPUStatus::Maintenance), (5, NPUStatus::Idle)] {
        pool.add_device(NPUDevice {
            id,
            name: format!("npu-{}", id),
            capabilities: NPUCapabilities::default(),
            status,
            current_model: Some("m".to_string()),
            allocated_to: None,
        });
    }
    assert_eq!(pool.allocate_npu(9), Some(5));
    assert_eq!(pool.devices[1].allocated_to, Some(9));
    assert_eq!(pool.devices[1].status, NPUStatus::Busy);
    assert!(!pool.deallocate_npu(4));
    assert!(pool.deallocate_npu(5));
    assert_eq!(pool.devices[1].current_model, None);
    assert_eq!(pool.devices[1].status, NPUStatus::Idle);
}

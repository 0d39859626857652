//! Agent configuration and its builder.
use vstd::prelude::*;
use crate::agent_types::AgentCapabilities;

verus! {

/// Configuration of an agent.
#[derive(Debug, Clone)]
pub struct AgentConfig {
    pub name: String,
    pub capabilities: AgentCapabilities,
    pub max_message_queue_size: usize,
}

pub const DEFAULT_MESSAGE_QUEUE_SIZE: usize = 1000;

impl Default for AgentConfig {
    fn default() -> (r: Self)
        ensures
            r.name@ == "unnamed_agent"@,
            !r.capabilities.can_inference,
            !r.capabilities.can_training,
            r.capabilities.supported_models@.len() == 0,
            r.max_message_queue_size == DEFAULT_MESSAGE_QUEUE_SIZE,
    {
        AgentConfig {
            name: String::from_str("unnamed_agent"),
            capabilities: AgentCapabilities::default(),
            max_message_queue_size: DEFAULT_MESSAGE_QUEUE_SIZE,
        }
    }
}

/// Builds an agent configuration step by step.
#[derive(Debug)]
pub struct AgentBuilder {
    pub config: AgentConfig,
}

impl AgentBuilder {
    /// A builder for an agent called `name`, with default capabilities and queue size.
    pub fn new(name: &str) -> (r: Self)
        ensures
            r.config.name@ == name@,
            !r.config.capabilities.can_inference,
            !r.config.capabilities.can_training,
            r.config.capabilities.supported_models@.len() == 0,
            r.config.max_message_queue_size == DEFAULT_MESSAGE_QUEUE_SIZE,
    {
        let defaults = AgentConfig::default();
        AgentBuilder { config: AgentConfig { name: String::from_str(name), ..defaults } }
    }

    pub fn with_capabilities(self, capabilities: AgentCapabilities) -> (r: Self)
        ensures
            r.config == (AgentConfig { capabilities, ..self.config }),
    {
        AgentBuilder { config: AgentConfig { capabilities, ..self.config } }
    }

    pub fn with_message_queue_size(self, size: usize) -> (r: Self)
        ensures
            r.config == (AgentConfig { max_message_queue_size: size, ..self.config }),
    {
        AgentBuilder { config: AgentConfig { max_message_queue_size: size, ..self.config } }
    }

    /// Enables inference.
    pub fn with_ai_inference(self) -> (r: Self)
        ensures
            r.config.capabilities == (AgentCapabilities { can_inference: true, ..self.config.capabilities }),
            r.config.name == self.config.name,
            r.config.max_message_queue_size == self.config.max_message_queue_size,
    {
        let mut config = self.config;
        config.capabilities.can_inference = true;
        AgentBuilder { config }
    }

    /// Enables training.
    pub fn with_training(self) -> (r: Self)
        ensures
            r.config.capabilities == (AgentCapabilities { can_training: true, ..self.config.capabilities }),
            r.config.name == self.config.name,
            r.config.max_message_queue_size == self.config.max_message_queue_size,
    {
        let mut config = self.config;
        config.capabilities.can_training = true;
        AgentBuilder { config }
    }

    /// Sets the model types the agent supports.
    pub fn with_models(self, models: Vec<String>) -> (r: Self)
        ensures
            r.config.capabilities == (AgentCapabilities { supported_models: models, ..self.config.capabilities }),
            r.config.name == self.config.name,
            r.config.max_message_queue_size == self.config.max_message_queue_size,
    {
        let mut config = self.config;
        config.capabilities.supported_models = models;
        AgentBuilder { config }
    }

    /// The finished configuration.
    pub fn config(self) -> (r: AgentConfig)
        ensures
            r == self.config,
    {
        self.config
    }
}

} // verus!

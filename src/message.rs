//! Messages exchanged between agents.
use vstd::prelude::*;
use crate::agent_types::AgentId;

verus! {

#[derive(Debug, Clone, Copy, PartialEq, Eq, Structural)]
pub enum MessageType {
    /// Plain data.
    Data,
    InferenceRequest,
    InferenceResponse,
    /// System control.
    Control,
    /// Error notification.
    Error,
}

/// A message from one agent to another; the timestamp is in Unix seconds.
#[derive(Debug, Clone)]
pub struct Message {
    pub from: AgentId,
    pub to: AgentId,
    pub message_type: MessageType,
    pub payload: Vec<u8>,
    pub timestamp: u64,
}

} // verus!

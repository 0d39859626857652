//! Model configuration, agent-level inference messages, and text tokenisation.
use vstd::prelude::*;
use crate::agent_types::{InferencePriority, Precision, TaskId};

verus! {

/// How to load and run one model.
#[derive(Debug, Clone)]
pub struct ModelConfig {
    pub model_id: String,
    pub model_path: String,
    pub input_shape: Vec<usize>,
    pub output_shape: Vec<usize>,
    pub precision: Precision,
    pub batch_size: usize,
}

impl Default for ModelConfig {
    /// An image classifier: 1x3x224x224 in, 1x1000 out, 32-bit floats.
    fn default() -> (r: Self)
        ensures
            r.model_id@ == "default_model"@,
            r.model_path@ == "model.onnx"@,
            r.input_shape@ == seq![1usize, 3, 224, 224],
            r.output_shape@ == seq![1usize, 1000],
            r.precision == Precision::FP32,
            r.batch_size == 1,
    {
        ModelConfig {
            model_id: String::from_str("default_model"),
            model_path: String::from_str("model.onnx"),
            input_shape: vec![1usize, 3, 224, 224],
            output_shape: vec![1usize, 1000],
            precision: Precision::FP32,
            batch_size: 1,
        }
    }
}

/// An agent's request to run a model.
#[derive(Debug, Clone)]
pub struct InferenceRequest {
    pub task_id: TaskId,
    pub model_id: String,
    pub input_data: Vec<u8>,
    pub input_shape: Vec<usize>,
    pub priority: InferencePriority,
}

/// The answer to an agent's request; latency in milliseconds.
#[derive(Debug, Clone)]
pub struct InferenceResponse {
    pub task_id: TaskId,
    pub success: bool,
    pub output_data: Vec<u8>,
    pub output_shape: Vec<usize>,
    pub latency_ms: u64,
    pub error: Option<String>,
}

/// Token `i` of `text` padded to `len`: the code point of character `i`, or 0 past the
/// end of the text.
pub open spec fn token_at(text: Seq<char>, i: int) -> u32 {
    if i < text.len() {
        text[i] as u32
    } else {
        0
    }
}

/// One token per character (its code point), cut or padded with zeros to `max_length`.
pub fn text_to_tokens(text: &str, max_length: usize) -> (r: Vec<u32>)
    ensures
        r@.len() == max_length,
        forall|i: int| 0 <= i < max_length ==> r@[i] == token_at(text@, i),
{
    let n = text.unicode_len();
    let mut tokens: Vec<u32> = Vec::new();
    let mut i: usize = 0;
    while i < max_length
        invariant
            0 <= i <= max_length,
            n == text@.len(),
            tokens@.len() == i,
            forall|j: int| 0 <= j < i ==> tokens@[j] == token_at(text@, j),
        decreases max_length - i,
    {
        if i < n {
            let c = text.get_char(i);
            tokens.push(c as u32);
        } else {
            tokens.push(0);
        }
        i = i + 1;
    }
    tokens
}

} // verus!

use vstd::prelude::*;
use crate::chat_message::ChatMessage;

verus! {

// The records a successful dispatch decodes into. They are produced only
// by deserializing a provider response — the embedding application parses
// the body text and hands the plain values over — and never mutated
// afterward.

/// Token accounting of one completion.
#[derive(Clone, Copy, Debug, PartialEq, Eq, Structural)]
pub struct Usage {
    pub prompt_tokens: u32,
    pub completion_tokens: u32,
    pub total_tokens: u32,
}

/// A function invocation reported by the model, with its arguments as a
/// key/value mapping.
#[derive(Clone, Debug, PartialEq)]
pub struct FunctionCall {
    pub name: String,
    pub arguments: Vec<(String, String)>,
}

/// One candidate continuation: its position, the message, and why the
/// model stopped.
#[derive(Clone, Debug, PartialEq)]
pub struct Choice {
    pub index: u16,
    pub message: ChatMessage,
    pub finish_reason: String,
}

/// A decoded completion: identity and provenance of the answer, the
/// ordered candidate continuations, and optional token accounting.
#[derive(Clone, Debug, PartialEq)]
pub struct ChatCompletionResponse {
    pub id: String,
    pub object: String,
    pub created: u64,
    pub model: String,
    pub choices: Vec<Choice>,
    pub usage: Option<Usage>,
}

} // verus!

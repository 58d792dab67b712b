//! Request and response data types.
//!
//! These are plain owned values; the transport layer converts them to and
//! from its own serialised forms at the edge.

use vstd::prelude::*;

verus! {

/// One role/content message pair of a chat request. Message contents are
/// used only to compute the reported prompt-token count, never for
/// generation.
pub struct Message {
    pub role: String,
    pub content: String,
}

/// Token accounting reported with a response: read-only summaries derived
/// from text lengths.
pub struct Usage {
    pub prompt_tokens: usize,
    pub completion_tokens: usize,
    pub total_tokens: usize,
}

/// A chat completion returned as one whole message.
pub struct ChatCompletionResponse {
    pub id: String,
    pub object: String,
    pub created: i64,
    pub model: String,
    pub usage: Usage,
    pub choices: Vec<ChatChoice>,
}

/// One choice of a chat completion.
pub struct ChatChoice {
    pub index: usize,
    pub message: ChatMessage,
    pub finish_reason: String,
}

/// The message carried by a chat choice.
pub struct ChatMessage {
    pub role: String,
    pub content: String,
}

/// A legacy completions request.
pub struct CompletionsRequest {
    pub model: String,
    pub prompt: Option<String>,
    pub max_tokens: Option<usize>,
    pub n: Option<usize>,
    pub stream: Option<bool>,
}

/// A legacy completions response.
pub struct CompletionsResponse {
    pub id: String,
    pub object: String,
    pub created: i64,
    pub model: String,
    pub usage: Usage,
    pub choices: Vec<CompletionChoice>,
}

/// One choice of a legacy completions response.
pub struct CompletionChoice {
    pub index: usize,
    pub text: String,
    pub finish_reason: String,
}

/// An embeddings request; the vector itself is produced outside the core.
pub struct EmbeddingRequest {
    pub input: Option<String>,
    pub model: Option<String>,
}

/// The model catalogue.
pub struct ModelsListResponse {
    pub data: Vec<ModelInfo>,
}

/// One catalogue entry.
pub struct ModelInfo {
    pub id: String,
    pub object: String,
    pub owned_by: String,
}

} // verus!

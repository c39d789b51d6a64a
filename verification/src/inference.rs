//! The data carried by an inference request and its responses.
//!
//! The task object itself, which couples these values to a response
//! channel, lives with the surrounding application; the plain data it
//! carries is defined here.

use vstd::prelude::*;

verus! {

/// One chat message.
#[derive(Debug, Clone, PartialEq)]
pub struct ChatMessage {
    /// Who sent it: "user", "assistant" or "system".
    pub role: String,
    /// What it says.
    pub content: String,
}

/// The input of an inference task.
#[derive(Debug, Clone, PartialEq)]
pub enum TaskInput {
    /// Complete a text.
    Completion {
        /// The text to complete.
        text: String,
        /// Whether to echo the prompt with the result.
        echo_prompt: bool,
    },
    /// Continue a chat.
    Chat {
        /// The messages so far.
        messages: Vec<ChatMessage>,
    },
    /// Complete from raw token ids.
    CompletionTokens(Vec<u32>),
}

/// Token accounting of one inference.
#[derive(Debug, Clone, Default, PartialEq, Eq, Structural)]
pub struct UsageMetrics {
    /// Tokens in the prompt.
    pub prompt_tokens: usize,
    /// Tokens generated.
    pub completion_tokens: usize,
    /// Both together.
    pub total_tokens: usize,
}

/// One chunk of an inference response stream.
#[derive(Debug, Clone, PartialEq)]
pub enum InferenceResponse {
    /// A chunk of generated text.
    Data {
        /// Which request this answers.
        request_id: String,
        /// The text of this chunk.
        text_chunk: String,
        /// Whether this is the last chunk.
        is_final_chunk: bool,
        /// Token accounting so far, if reported.
        usage: Option<UsageMetrics>,
    },
    /// The final response with the full text.
    Done {
        /// Which request this answers.
        request_id: String,
        /// The full generated text.
        full_text: String,
        /// Final token accounting.
        usage: UsageMetrics,
        /// Why generation stopped.
        stop_reason: String,
    },
    /// Generation failed.
    Error {
        /// Which request this answers.
        request_id: String,
        /// What went wrong.
        error: String,
    },
}

} // verus!

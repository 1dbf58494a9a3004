//! Messages exchanged with an OpenAI-compatible chat-completions service.

use vstd::prelude::*;

verus! {

/// One message of a chat conversation.
#[derive(Debug)]
pub struct LlmMessage {
    pub role: String,
    pub content: String,
}

/// A chat-completions reply.
#[derive(Debug)]
pub struct SiliconFlowChatResponse {
    pub id: String,
    pub model: String,
    pub choices: Vec<SiliconFlowChoice>,
    pub usage: Option<SiliconFlowUsage>,
}

/// One candidate answer of a chat-completions reply.
#[derive(Debug)]
pub struct SiliconFlowChoice {
    pub index: u32,
    pub message: SiliconFlowAssistantMessage,
    pub finish_reason: Option<String>,
}

/// The assistant's message inside a choice.
#[derive(Debug)]
pub struct SiliconFlowAssistantMessage {
    pub role: String,
    pub content: Option<String>,
    pub reasoning_content: Option<String>,
}

/// Token accounting of a chat-completions reply.
#[derive(Debug)]
pub struct SiliconFlowUsage {
    pub prompt_tokens: Option<u32>,
    pub completion_tokens: Option<u32>,
    pub total_tokens: Option<u32>,
}

} // verus!

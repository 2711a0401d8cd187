//! Messages exchanged with a language model, and the provider answered when none is
//! configured.
use vstd::prelude::*;
use vstd::string::*;

verus! {

/// One message of a chat: who wrote it and what it says.
#[derive(Debug, Clone)]
pub struct ChatMessage {
    pub role: String,
    pub content: String,
}

/// The reply of a language model.
#[derive(Debug, Clone)]
pub struct ChatResponse {
    pub content: String,
}

/// The provider used when no language model is configured.
pub struct MockProvider;

impl MockProvider {
    /// Answers any conversation with the notice that no provider is configured.
    pub fn chat(&self, messages: &[ChatMessage]) -> (r: ChatResponse)
        ensures
            r.content@ == "LLM provider not configured."@,
    {
        ChatResponse { content: String::from_str("LLM provider not configured.") }
    }
}

} // verus!

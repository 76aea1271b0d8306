//! The AI assistant: backend metadata and the conversation history.
use vstd::prelude::*;
use crate::ids::new_id;
use crate::clock::now_ms;

verus! {

/// Capabilities of an AI backend.
#[derive(Debug, Clone, Copy, PartialEq, Eq)]
pub struct AiCapabilities {
    pub chat: bool,
    pub function_calling: bool,
    pub vision: bool,
    pub streaming: bool,
}

/// Metadata of an AI backend.
#[derive(Debug, Clone, PartialEq, Eq)]
pub struct AiBackendMetadata {
    pub name: String,
    pub version: String,
    pub description: String,
    pub icon: String,
    pub capabilities: AiCapabilities,
    pub provider: String,
}

/// A message of a conversation.
#[derive(Debug, Clone, PartialEq, Eq)]
pub struct AiMessage {
    pub id: u128,
    /// "user", "assistant" or "system"
    pub role: String,
    pub content: String,
    /// Milliseconds since the Unix epoch
    pub timestamp_ms: i64,
}

/// The assistant's state.
#[derive(Debug)]
pub struct AiManager {
    pub active_backend: Option<String>,
    pub history: Vec<AiMessage>,
    pub is_generating: bool,
}

impl AiManager {
    /// No backend, no history, idle.
    pub fn new() -> (m: AiManager)
        ensures
            m.active_backend is None,
            m.history@.len() == 0,
            !m.is_generating,
    {
        AiManager { active_backend: None, history: Vec::new(), is_generating: false }
    }

    /// Records a user query with identifier `id` at time `now`, and starts
    /// generating.
    pub fn submit_query_at(&mut self, query: &str, id: u128, now: i64)
        ensures
            final(self).history@.len() == old(self).history@.len() + 1,
            final(self).history@.drop_last() == old(self).history@,
            final(self).history@.last().id == id,
            final(self).history@.last().role@ == "user"@,
            final(self).history@.last().content@ == query@,
            final(self).history@.last().timestamp_ms == now,
            final(self).is_generating,
            final(self).active_backend == old(self).active_backend,
    {
        self.history.push(AiMessage {
            id,
            role: String::from_str("user"),
            content: String::from_str(query),
            timestamp_ms: now,
        });
        self.is_generating = true;
        assert(self.history@.drop_last() =~= old(self).history@);
    }

    /// Records a user query now, under a fresh identifier.
    pub fn submit_query(&mut self, query: &str)
        ensures
            final(self).history@.len() == old(self).history@.len() + 1,
            final(self).history@.last().content@ == query@,
            final(self).is_generating,
    {
        let id = new_id();
        let now = now_ms();
        self.submit_query_at(query, id, now);
    }

    /// Stops generation.
    pub fn stop_generation(&mut self)
        ensures
            !final(self).is_generating,
            final(self).history@ == old(self).history@,
    {
        self.is_generating = false;
    }

    /// Forgets the conversation.
    pub fn clear_history(&mut self)
        ensures
            final(self).history@.len() == 0,
            final(self).is_generating == old(self).is_generating,
    {
        self.history = Vec::new();
    }
}

} // verus!

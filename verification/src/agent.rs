//! The interface of agents: what they are called with, and what they offer.

use crate::error::AISDKError;
use crate::prompt::{Message, PromptContent};
use crate::tool::ToolSet;
use vstd::prelude::*;

verus! {

/// What an agent is called with: the prompt, as text or as messages. The
/// tools are part of the agent's settings.
#[derive(Debug, Clone, PartialEq)]
pub struct AgentCallParameters {
    pub prompt: PromptContent,
}

impl AgentCallParameters {
    /// Parameters with the given prompt content.
    pub fn new(prompt: PromptContent) -> (p: Self)
        ensures
            p.prompt == prompt,
    {
        AgentCallParameters { prompt }
    }

    /// Parameters with a text prompt.
    pub fn from_text(text: &str) -> (p: Self)
        ensures
            p.prompt matches PromptContent::Text { text: t } && t@ == text@,
    {
        AgentCallParameters { prompt: PromptContent::Text { text: text.to_owned() } }
    }

    /// Parameters with a conversation as the prompt.
    pub fn from_messages(messages: Vec<Message>) -> (p: Self)
        ensures
            p.prompt == (PromptContent::Messages { messages }),
    {
        AgentCallParameters { prompt: PromptContent::Messages { messages } }
    }
}

/// An agent: it takes a prompt and prepares a generation, streamed or not,
/// with its own settings and tools. Users implement it for their agents;
/// `Generate` and `Stream` are what the agent hands back to be run.
pub trait AgentInterface: Send + Sync {
    /// What the agent's generation yields.
    type Output: Send + Sync;

    /// What `generate` prepares.
    type Generate;

    /// What `stream` prepares.
    type Stream;

    /// The version of the agent interface that the agent follows; unless
    /// the agent says otherwise, `"agent-v1"`.
    fn version(&self) -> (v: &'static str)
        default_ensures
            v@ == "agent-v1"@,
    {
        "agent-v1"
    }

    /// The agent's id, if it has one.
    fn id(&self) -> Option<&str>;

    /// The tools that the agent can use, if any.
    fn tools(&self) -> Option<&ToolSet>;

    /// Prepares a generation for the given parameters.
    fn generate(&self, params: AgentCallParameters) -> Result<Self::Generate, AISDKError>;

    /// Prepares a streamed generation for the given parameters.
    fn stream(&self, params: AgentCallParameters) -> Result<Self::Stream, AISDKError>;
}

} // verus!

use crate::prompt::{DataContent, ProviderOptions};
use serde_json::Value;
use std::collections::HashMap;
use vstd::prelude::*;

verus! {

/// Inline data as a language model provider takes it: base64 text or a URL.
#[derive(Debug, Clone, PartialEq)]
pub enum LanguageModelDataContent {
    Base64(String),
    Url(String),
}

/// A part of a user message in a provider prompt.
#[derive(Debug, Clone, PartialEq)]
pub enum UserMessagePart {
    Text { text: String, provider_options: Option<ProviderOptions> },
    File {
        filename: Option<String>,
        data: LanguageModelDataContent,
        media_type: String,
        provider_options: Option<ProviderOptions>,
    },
}

/// One item of multi-part tool output in a provider prompt.
#[derive(Debug, Clone, PartialEq)]
pub enum ToolResultContentItem {
    Text { text: String },
    Media { data: String, media_type: String },
}

/// Tool output in a provider prompt.
#[derive(Debug, Clone, PartialEq)]
pub enum LanguageModelToolResultOutput {
    Text { value: String },
    Json { value: Value },
    ErrorText { value: String },
    ErrorJson { value: Value },
    Content { value: Vec<ToolResultContentItem> },
}

/// A tool result in a provider prompt.
#[derive(Debug, Clone, PartialEq)]
pub struct LanguageModelToolResultPart {
    pub tool_call_id: String,
    pub tool_name: String,
    pub output: LanguageModelToolResultOutput,
    pub provider_options: Option<ProviderOptions>,
}

/// A part of an assistant message in a provider prompt.
#[derive(Debug, Clone, PartialEq)]
pub enum AssistantMessagePart {
    Text { text: String, provider_options: Option<ProviderOptions> },
    File {
        filename: Option<String>,
        data: LanguageModelDataContent,
        media_type: String,
        provider_options: Option<ProviderOptions>,
    },
    Reasoning { text: String, provider_options: Option<ProviderOptions> },
    ToolCall {
        tool_call_id: String,
        tool_name: String,
        input: Value,
        provider_executed: Option<bool>,
        provider_options: Option<ProviderOptions>,
    },
    ToolResult {
        tool_call_id: String,
        tool_name: String,
        output: LanguageModelToolResultOutput,
        provider_options: Option<ProviderOptions>,
    },
}

/// A message of a provider prompt.
#[derive(Debug, Clone, PartialEq)]
pub enum LanguageModelMessage {
    System { content: String, provider_options: Option<ProviderOptions> },
    User { content: Vec<UserMessagePart>, provider_options: Option<ProviderOptions> },
    Assistant { content: Vec<AssistantMessagePart>, provider_options: Option<ProviderOptions> },
    Tool { content: Vec<LanguageModelToolResultPart>, provider_options: Option<ProviderOptions> },
}

/// A provider-prompt message as a value: a tool message by the sequence of
/// its results, any other message as it is.
pub enum MessageShape {
    Tool { content: Seq<LanguageModelToolResultPart>, provider_options: Option<ProviderOptions> },
    Other { message: LanguageModelMessage },
}

pub open spec fn shape_of(m: LanguageModelMessage) -> MessageShape {
    match m {
        LanguageModelMessage::Tool { content, provider_options } => MessageShape::Tool {
            content: content@,
            provider_options,
        },
        _ => MessageShape::Other { message: m },
    }
}

pub open spec fn shapes_of(ms: Seq<LanguageModelMessage>) -> Seq<MessageShape> {
    ms.map_values(|m: LanguageModelMessage| shape_of(m))
}

/// Metadata that a provider attaches to what it returns, by provider name.
pub type ProviderMetadata = ProviderOptions;

/// Why the model stopped generating.
#[derive(Debug, Clone, Copy, PartialEq, Eq)]
pub enum LanguageModelFinishReason {
    Stop,
    Length,
    ContentFilter,
    ToolCalls,
    Error,
    Other,
    Unknown,
}

/// Token counts of a model call.
#[derive(Debug, Clone, Copy, PartialEq, Eq, Default)]
pub struct LanguageModelUsage {
    pub input_tokens: u64,
    pub output_tokens: u64,
    pub total_tokens: u64,
    pub reasoning_tokens: u64,
    pub cached_input_tokens: u64,
}

/// A warning that a provider gives about a call.
#[derive(Debug, Clone, PartialEq)]
pub enum LanguageModelCallWarning {
    UnsupportedSetting { setting: String, details: Option<String> },
    UnsupportedTool { tool_name: String, details: Option<String> },
    Other { message: String },
}

/// A source that the model cited.
#[derive(Debug, Clone, PartialEq)]
pub enum LanguageModelSource {
    Url { id: String, url: String, title: Option<String>, provider_metadata: Option<ProviderMetadata> },
    Document {
        id: String,
        media_type: String,
        title: String,
        filename: Option<String>,
        provider_metadata: Option<ProviderMetadata>,
    },
}

/// A tool call as the provider returns it: the input is JSON text.
#[derive(Debug, Clone, PartialEq)]
pub struct LanguageModelToolCall {
    pub tool_call_id: String,
    pub tool_name: String,
    pub input: String,
    pub provider_executed: Option<bool>,
    pub provider_metadata: Option<ProviderMetadata>,
}

/// The result of a tool that the provider ran itself.
#[derive(Debug, Clone, PartialEq)]
pub struct LanguageModelToolResult {
    pub tool_call_id: String,
    pub tool_name: String,
    pub result: Value,
    pub is_error: Option<bool>,
    pub provider_executed: Option<bool>,
    pub provider_metadata: Option<ProviderMetadata>,
}

/// A file that the model generated.
#[derive(Debug, Clone, PartialEq)]
pub struct LanguageModelFile {
    pub media_type: String,
    pub data: DataContent,
}

/// One item of what the model returned.
#[derive(Debug, Clone, PartialEq)]
pub enum LanguageModelContent {
    Text { text: String },
    Reasoning { text: String },
    File(LanguageModelFile),
    Source(LanguageModelSource),
    ToolCall(LanguageModelToolCall),
    ToolResult(LanguageModelToolResult),
}

/// Metadata of a model response.
#[derive(Debug, Clone, PartialEq)]
pub struct LanguageModelResponseMetadata {
    pub id: Option<String>,
    pub timestamp: Option<i64>,
    pub model_id: Option<String>,
}

/// A tool as a provider takes it.
#[derive(Debug, Clone, PartialEq)]
pub enum LanguageModelTool {
    Function { name: String, description: Option<String>, input_schema: Value, provider_options: Option<ProviderOptions> },
    ProviderDefined { id: String, name: String, args: HashMap<String, Value> },
}

/// How the model may use the tools.
#[derive(Debug, Clone, PartialEq)]
pub enum LanguageModelToolChoice {
    Auto,
    NoTools,
    Required,
    Tool { tool_name: String },
}

/// One part of what a provider streams while the model generates.
#[derive(Debug, Clone, PartialEq)]
pub enum StreamPart {
    TextStart { id: String, provider_metadata: Option<ProviderMetadata> },
    TextDelta { id: String, delta: String, provider_metadata: Option<ProviderMetadata> },
    TextEnd { id: String, provider_metadata: Option<ProviderMetadata> },
    ReasoningStart { id: String, provider_metadata: Option<ProviderMetadata> },
    ReasoningDelta { id: String, delta: String, provider_metadata: Option<ProviderMetadata> },
    ReasoningEnd { id: String, provider_metadata: Option<ProviderMetadata> },
    ToolInputStart {
        id: String,
        tool_name: String,
        provider_metadata: Option<ProviderMetadata>,
        provider_executed: Option<bool>,
    },
    ToolInputDelta { id: String, delta: String, provider_metadata: Option<ProviderMetadata> },
    ToolInputEnd { id: String, provider_metadata: Option<ProviderMetadata> },
    ToolCall(LanguageModelToolCall),
    ToolResult(LanguageModelToolResult),
    File(LanguageModelFile),
    Source(LanguageModelSource),
    StreamStart { warnings: Vec<LanguageModelCallWarning> },
    ResponseMetadata(LanguageModelResponseMetadata),
    Finish {
        usage: LanguageModelUsage,
        finish_reason: LanguageModelFinishReason,
        provider_metadata: Option<ProviderMetadata>,
    },
    Error { error: Value },
    Raw { raw_value: Value },
}

} // verus!

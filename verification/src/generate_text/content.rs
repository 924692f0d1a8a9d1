use super::tool_types::{TypedToolCall, TypedToolError, TypedToolResult};
use crate::prompt::{data_base64, DataContent};
use crate::provider::{LanguageModelSource, ProviderMetadata};
use serde_json::Value;
use vstd::prelude::*;

verus! {

/// Text that the model generated.
#[derive(Debug, Clone, PartialEq)]
pub struct TextOutput {
    pub text: String,
}

impl TextOutput {
    pub fn new(text: String) -> (o: TextOutput)
        ensures
            o.text == text,
    {
        TextOutput { text }
    }
}

/// Reasoning that the model generated.
#[derive(Debug, Clone, PartialEq)]
pub struct ReasoningOutput {
    pub text: String,
    pub provider_metadata: Option<ProviderMetadata>,
}

impl ReasoningOutput {
    pub fn new(text: String) -> (o: ReasoningOutput)
        ensures
            o.text == text,
            o.provider_metadata is None,
    {
        ReasoningOutput { text, provider_metadata: None }
    }
}

/// A source that the model cited.
#[derive(Debug, Clone, PartialEq)]
pub struct SourceOutput {
    pub source: LanguageModelSource,
}

impl SourceOutput {
    pub fn new(source: LanguageModelSource) -> (o: SourceOutput)
        ensures
            o.source == source,
    {
        SourceOutput { source }
    }
}

/// One item of what a generation step produced.
#[derive(Debug, Clone, PartialEq)]
pub enum ContentPart<INPUT = Value, OUTPUT = Value> {
    Text(TextOutput),
    Reasoning(ReasoningOutput),
    Source(SourceOutput),
    ToolCall(TypedToolCall<INPUT>),
    ToolResult(TypedToolResult<INPUT, OUTPUT>),
    ToolError(TypedToolError<INPUT>),
}

/// One item of a generation's output.
pub type Output<INPUT = Value, OUTPUT = Value> = ContentPart<INPUT, OUTPUT>;

impl<INPUT, OUTPUT> ContentPart<INPUT, OUTPUT> {
    pub fn is_text(&self) -> (b: bool)
        ensures
            b == (*self is Text),
    {
        match self {
            ContentPart::Text(_) => true,
            _ => false,
        }
    }

    pub fn is_reasoning(&self) -> (b: bool)
        ensures
            b == (*self is Reasoning),
    {
        match self {
            ContentPart::Reasoning(_) => true,
            _ => false,
        }
    }

    pub fn is_source(&self) -> (b: bool)
        ensures
            b == (*self is Source),
    {
        match self {
            ContentPart::Source(_) => true,
            _ => false,
        }
    }

    pub fn is_tool_call(&self) -> (b: bool)
        ensures
            b == (*self is ToolCall),
    {
        match self {
            ContentPart::ToolCall(_) => true,
            _ => false,
        }
    }

    pub fn is_tool_result(&self) -> (b: bool)
        ensures
            b == (*self is ToolResult),
    {
        match self {
            ContentPart::ToolResult(_) => true,
            _ => false,
        }
    }

    pub fn is_tool_error(&self) -> (b: bool)
        ensures
            b == (*self is ToolError),
    {
        match self {
            ContentPart::ToolError(_) => true,
            _ => false,
        }
    }
}

/// A file that the model generated.
#[derive(Debug, Clone, PartialEq)]
pub struct GeneratedFile {
    pub data: DataContent,
    pub media_type: String,
    pub name: Option<String>,
}

impl GeneratedFile {
    pub fn from_base64(base64: &str, media_type: &str) -> (f: GeneratedFile)
        ensures
            f.data matches DataContent::Base64(s) && s@ == base64@,
            f.media_type@ == media_type@,
            f.name is None,
    {
        GeneratedFile { data: DataContent::Base64(base64.to_owned()), media_type: media_type.to_owned(), name: None }
    }

    pub fn from_bytes(bytes: Vec<u8>, media_type: &str) -> (f: GeneratedFile)
        ensures
            f.data == DataContent::Bytes(bytes),
            f.media_type@ == media_type@,
            f.name is None,
    {
        GeneratedFile { data: DataContent::Bytes(bytes), media_type: media_type.to_owned(), name: None }
    }

    pub fn with_name(self, name: &str) -> (f: GeneratedFile)
        ensures
            f.data == self.data,
            f.media_type == self.media_type,
            f.name matches Some(n) && n@ == name@,
    {
        GeneratedFile { name: Some(name.to_owned()), ..self }
    }

    /// The file's data as base64 text.
    pub fn base64(&self) -> (s: String)
        ensures
            s@ == data_base64(self.data),
    {
        self.data.to_base64()
    }
}

/// A request that the user approve a tool call before it runs.
#[derive(Debug, Clone, PartialEq)]
pub struct ToolApprovalRequestOutput<INPUT> {
    pub output_type: String,
    pub approval_id: String,
    pub tool_call: TypedToolCall<INPUT>,
}

impl<INPUT> ToolApprovalRequestOutput<INPUT> {
    pub fn new(approval_id: &str, tool_call: TypedToolCall<INPUT>) -> (o: Self)
        ensures
            o.output_type@ == "tool-approval-request"@,
            o.approval_id@ == approval_id@,
            o.tool_call == tool_call,
    {
        ToolApprovalRequestOutput {
            output_type: "tool-approval-request".to_owned(),
            approval_id: approval_id.to_owned(),
            tool_call,
        }
    }
}

} // verus!

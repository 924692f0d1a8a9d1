use crate::error::AISDKError;
use base64::Engine;
use serde_json::Value;
use std::collections::HashMap;
use vstd::prelude::*;

verus! {

/// Provider-specific options, by provider name and then by option name.
pub type ProviderOptions = HashMap<String, HashMap<String, Value>>;

/// Binary data given inline: as base64 text or as raw bytes.
#[derive(Debug, Clone, PartialEq)]
pub enum DataContent {
    Base64(String),
    Bytes(Vec<u8>),
}

/// Where the data of an image comes from.
#[derive(Debug, Clone, PartialEq)]
pub enum ImageSource {
    Data(DataContent),
    Url(String),
}

/// Where the data of a file comes from.
#[derive(Debug, Clone, PartialEq)]
pub enum FileSource {
    Data(DataContent),
    Url(String),
}

/// A text part of a message.
#[derive(Debug, Clone, PartialEq)]
pub struct TextPart {
    pub text: String,
    pub provider_options: Option<ProviderOptions>,
}

impl TextPart {
    pub fn new(text: &str) -> (p: TextPart)
        ensures
            p.text@ == text@,
            p.provider_options is None,
    {
        TextPart { text: text.to_owned(), provider_options: None }
    }
}

/// An image part of a user message.
#[derive(Debug, Clone, PartialEq)]
pub struct ImagePart {
    pub image: ImageSource,
    pub media_type: Option<String>,
    pub provider_options: Option<ProviderOptions>,
}

/// A file part of a message.
#[derive(Debug, Clone, PartialEq)]
pub struct FilePart {
    pub data: FileSource,
    pub media_type: String,
    pub filename: Option<String>,
    pub provider_options: Option<ProviderOptions>,
}

/// A reasoning part of an assistant message.
#[derive(Debug, Clone, PartialEq)]
pub struct ReasoningPart {
    pub text: String,
    pub provider_options: Option<ProviderOptions>,
}

impl ReasoningPart {
    pub fn new(text: &str) -> (p: ReasoningPart)
        ensures
            p.text@ == text@,
            p.provider_options is None,
    {
        ReasoningPart { text: text.to_owned(), provider_options: None }
    }
}

/// A tool call made by the assistant.
#[derive(Debug, Clone, PartialEq)]
pub struct ToolCallPart {
    pub tool_call_id: String,
    pub tool_name: String,
    pub input: Value,
    pub provider_executed: Option<bool>,
    pub provider_options: Option<ProviderOptions>,
}

impl ToolCallPart {
    pub fn new(tool_call_id: String, tool_name: String, input: Value) -> (p: ToolCallPart)
        ensures
            p == (ToolCallPart {
                tool_call_id,
                tool_name,
                input,
                provider_executed: None,
                provider_options: None,
            }),
    {
        ToolCallPart { tool_call_id, tool_name, input, provider_executed: None, provider_options: None }
    }

    pub fn with_provider_executed(self, executed: bool) -> (p: ToolCallPart)
        ensures
            p == (ToolCallPart { provider_executed: Some(executed), ..self }),
    {
        ToolCallPart { provider_executed: Some(executed), ..self }
    }
}

/// How a file in tool output is identified: one id, or one id per provider.
#[derive(Debug, Clone, PartialEq)]
pub enum FileId {
    Single(String),
    ByProvider(HashMap<String, String>),
}

/// One item of multi-part tool output.
#[derive(Debug, Clone, PartialEq)]
pub enum ToolResultContentPart {
    Text { text: String, provider_options: Option<ProviderOptions> },
    Media { data: String, media_type: String },
    FileData {
        data: String,
        media_type: String,
        filename: Option<String>,
        provider_options: Option<ProviderOptions>,
    },
    FileUrl { url: String, provider_options: Option<ProviderOptions> },
    FileId { file_id: FileId, provider_options: Option<ProviderOptions> },
    ImageData { data: String, media_type: String, provider_options: Option<ProviderOptions> },
    ImageUrl { url: String, provider_options: Option<ProviderOptions> },
    ImageFileId { file_id: FileId, provider_options: Option<ProviderOptions> },
    Custom { provider_options: Option<ProviderOptions> },
}

/// The output of a tool, as it is shown to the model.
#[derive(Debug, Clone, PartialEq)]
pub enum ToolResultOutput {
    Text { value: String, provider_options: Option<ProviderOptions> },
    Json { value: Value, provider_options: Option<ProviderOptions> },
    ErrorText { value: String, provider_options: Option<ProviderOptions> },
    ErrorJson { value: Value, provider_options: Option<ProviderOptions> },
    Content { value: Vec<ToolResultContentPart> },
    ExecutionDenied { reason: Option<String>, provider_options: Option<ProviderOptions> },
}

impl ToolResultOutput {
    pub fn text(value: &str) -> (o: ToolResultOutput)
        ensures
            o matches ToolResultOutput::Text { value: v, provider_options: None } && v@ == value@,
    {
        ToolResultOutput::Text { value: value.to_owned(), provider_options: None }
    }
}

/// The result of a tool call, as a message part.
#[derive(Debug, Clone, PartialEq)]
pub struct ToolResultPart {
    pub tool_call_id: String,
    pub tool_name: String,
    pub output: ToolResultOutput,
    pub provider_options: Option<ProviderOptions>,
}

impl ToolResultPart {
    pub fn new(tool_call_id: &str, tool_name: &str, output: ToolResultOutput) -> (p: ToolResultPart)
        ensures
            p.tool_call_id@ == tool_call_id@,
            p.tool_name@ == tool_name@,
            p.output == output,
            p.provider_options is None,
    {
        ToolResultPart {
            tool_call_id: tool_call_id.to_owned(),
            tool_name: tool_name.to_owned(),
            output,
            provider_options: None,
        }
    }
}

/// A request, in an assistant message, that the user approve a tool call.
#[derive(Debug, Clone, PartialEq)]
pub struct ToolApprovalRequest {
    pub approval_id: String,
    pub tool_call_id: String,
}

/// The user's answer, in a tool message, to a tool approval request.
#[derive(Debug, Clone, PartialEq)]
pub struct ToolApprovalResponse {
    pub approval_id: String,
    pub approved: bool,
    pub reason: Option<String>,
}

/// The content of a user message: plain text or a list of parts.
#[derive(Debug, Clone, PartialEq)]
pub enum UserContent {
    Text(String),
    Parts(Vec<UserContentPart>),
}

#[derive(Debug, Clone, PartialEq)]
pub enum UserContentPart {
    Text(TextPart),
    Image(ImagePart),
    File(FilePart),
}

/// The content of an assistant message: plain text or a list of parts.
#[derive(Debug, Clone, PartialEq)]
pub enum AssistantContent {
    Text(String),
    Parts(Vec<AssistantContentPart>),
}

#[derive(Debug, Clone, PartialEq)]
pub enum AssistantContentPart {
    Text(TextPart),
    File(FilePart),
    Reasoning(ReasoningPart),
    ToolCall(ToolCallPart),
    ToolResult(ToolResultPart),
    ToolApprovalRequest(ToolApprovalRequest),
}

#[derive(Debug, Clone, PartialEq)]
pub enum ToolContentPart {
    ToolResult(ToolResultPart),
    ToolApprovalResponse(ToolApprovalResponse),
}

/// A system message: instructions or context for the model.
#[derive(Debug, Clone, PartialEq)]
pub struct SystemModelMessage {
    pub content: String,
    pub provider_options: Option<ProviderOptions>,
}

impl SystemModelMessage {
    pub fn new(content: &str) -> (m: SystemModelMessage)
        ensures
            m.content@ == content@,
            m.provider_options is None,
    {
        SystemModelMessage { content: content.to_owned(), provider_options: None }
    }
}

/// A user message.
#[derive(Debug, Clone, PartialEq)]
pub struct UserModelMessage {
    pub content: UserContent,
    pub provider_options: Option<ProviderOptions>,
}

impl UserModelMessage {
    pub fn new(text: &str) -> (m: UserModelMessage)
        ensures
            m.content matches UserContent::Text(t) && t@ == text@,
            m.provider_options is None,
    {
        UserModelMessage { content: UserContent::Text(text.to_owned()), provider_options: None }
    }

    pub fn with_parts(parts: Vec<UserContentPart>) -> (m: UserModelMessage)
        ensures
            m.content == UserContent::Parts(parts),
            m.provider_options is None,
    {
        UserModelMessage { content: UserContent::Parts(parts), provider_options: None }
    }
}

/// An assistant message.
#[derive(Debug, Clone, PartialEq)]
pub struct AssistantModelMessage {
    pub content: AssistantContent,
    pub provider_options: Option<ProviderOptions>,
}

impl AssistantModelMessage {
    pub fn new(text: &str) -> (m: AssistantModelMessage)
        ensures
            m.content matches AssistantContent::Text(t) && t@ == text@,
            m.provider_options is None,
    {
        AssistantModelMessage { content: AssistantContent::Text(text.to_owned()), provider_options: None }
    }

    pub fn with_parts(parts: Vec<AssistantContentPart>) -> (m: AssistantModelMessage)
        ensures
            m.content == AssistantContent::Parts(parts),
            m.provider_options is None,
    {
        AssistantModelMessage { content: AssistantContent::Parts(parts), provider_options: None }
    }
}

/// A tool message: results of tool calls and answers to approval requests.
#[derive(Debug, Clone, PartialEq)]
pub struct ToolModelMessage {
    pub content: Vec<ToolContentPart>,
    pub provider_options: Option<ProviderOptions>,
}

impl ToolModelMessage {
    pub fn new(content: Vec<ToolContentPart>) -> (m: ToolModelMessage)
        ensures
            m.content == content,
            m.provider_options is None,
    {
        ToolModelMessage { content, provider_options: None }
    }
}

/// A message of a conversation: system, user, assistant or tool.
#[derive(Debug, Clone, PartialEq)]
pub enum ModelMessage {
    System(SystemModelMessage),
    User(UserModelMessage),
    Assistant(AssistantModelMessage),
    Tool(ToolModelMessage),
}

/// The role name of a message.
pub open spec fn role_of(m: ModelMessage) -> Seq<char> {
    match m {
        ModelMessage::System(_) => "system"@,
        ModelMessage::User(_) => "user"@,
        ModelMessage::Assistant(_) => "assistant"@,
        ModelMessage::Tool(_) => "tool"@,
    }
}

impl ModelMessage {
    /// Returns the role of this message.
    pub fn role(&self) -> (r: &'static str)
        ensures
            r@ == role_of(*self),
    {
        match self {
            ModelMessage::System(_) => "system",
            ModelMessage::User(_) => "user",
            ModelMessage::Assistant(_) => "assistant",
            ModelMessage::Tool(_) => "tool",
        }
    }

    pub fn is_system(&self) -> (b: bool)
        ensures
            b == (*self is System),
    {
        match self {
            ModelMessage::System(_) => true,
            _ => false,
        }
    }

    pub fn is_user(&self) -> (b: bool)
        ensures
            b == (*self is User),
    {
        match self {
            ModelMessage::User(_) => true,
            _ => false,
        }
    }

    pub fn is_assistant(&self) -> (b: bool)
        ensures
            b == (*self is Assistant),
    {
        match self {
            ModelMessage::Assistant(_) => true,
            _ => false,
        }
    }

    pub fn is_tool(&self) -> (b: bool)
        ensures
            b == (*self is Tool),
    {
        match self {
            ModelMessage::Tool(_) => true,
            _ => false,
        }
    }
}

/// The messages of a conversation.
pub type Message = ModelMessage;

impl From<SystemModelMessage> for ModelMessage {
    fn from(message: SystemModelMessage) -> (m: ModelMessage) {
        ModelMessage::System(message)
    }
}

impl vstd::std_specs::convert::FromSpecImpl<SystemModelMessage> for ModelMessage {
    open spec fn obeys_from_spec() -> bool {
        true
    }

    open spec fn from_spec(message: SystemModelMessage) -> ModelMessage {
        ModelMessage::System(message)
    }
}

impl From<UserModelMessage> for ModelMessage {
    fn from(message: UserModelMessage) -> (m: ModelMessage) {
        ModelMessage::User(message)
    }
}

impl vstd::std_specs::convert::FromSpecImpl<UserModelMessage> for ModelMessage {
    open spec fn obeys_from_spec() -> bool {
        true
    }

    open spec fn from_spec(message: UserModelMessage) -> ModelMessage {
        ModelMessage::User(message)
    }
}

impl From<AssistantModelMessage> for ModelMessage {
    fn from(message: AssistantModelMessage) -> (m: ModelMessage) {
        ModelMessage::Assistant(message)
    }
}

impl vstd::std_specs::convert::FromSpecImpl<AssistantModelMessage> for ModelMessage {
    open spec fn obeys_from_spec() -> bool {
        true
    }

    open spec fn from_spec(message: AssistantModelMessage) -> ModelMessage {
        ModelMessage::Assistant(message)
    }
}

impl From<ToolModelMessage> for ModelMessage {
    fn from(message: ToolModelMessage) -> (m: ModelMessage) {
        ModelMessage::Tool(message)
    }
}

impl vstd::std_specs::convert::FromSpecImpl<ToolModelMessage> for ModelMessage {
    open spec fn obeys_from_spec() -> bool {
        true
    }

    open spec fn from_spec(message: ToolModelMessage) -> ModelMessage {
        ModelMessage::Tool(message)
    }
}

/// A user message of a conversation.
pub type UserMessage = UserModelMessage;

/// An assistant message of a conversation.
pub type AssistantMessage = AssistantModelMessage;

/// What a prompt holds: a single text or a list of messages.
#[derive(Debug, Clone, PartialEq)]
pub enum PromptContent {
    Text { text: String },
    Messages { messages: Vec<Message> },
}

/// A prompt brought to its standard form: an optional system instruction and
/// the messages.
#[derive(Debug, Clone, PartialEq)]
pub struct StandardizedPrompt {
    pub system: Option<String>,
    pub messages: Vec<ModelMessage>,
}

/// The character of a 6-bit value in the standard base64 alphabet:
/// `A`-`Z`, `a`-`z`, `0`-`9`, `+` and `/`.
pub open spec fn base64_char(v: int) -> char {
    if v < 26 {
        (('A' as int) + v) as char
    } else if v < 52 {
        (('a' as int) + v - 26) as char
    } else if v < 62 {
        (('0' as int) + v - 52) as char
    } else if v == 62 {
        '+'
    } else {
        '/'
    }
}

/// The standard base64 encoding of a byte sequence (RFC 4648, with
/// padding): each group of three bytes gives four characters of six bits
/// each; a last group of one or two bytes gives two or three characters and
/// is padded with `=` to four.
pub open spec fn base64_encode(bytes: Seq<u8>) -> Seq<char>
    decreases bytes.len(),
{
    if bytes.len() == 0 {
        Seq::empty()
    } else if bytes.len() == 1 {
        let a = bytes[0] as int;
        seq![base64_char(a / 4), base64_char((a % 4) * 16), '=', '=']
    } else if bytes.len() == 2 {
        let a = bytes[0] as int;
        let b = bytes[1] as int;
        seq![base64_char(a / 4), base64_char((a % 4) * 16 + b / 16), base64_char((b % 16) * 4), '=']
    } else {
        let a = bytes[0] as int;
        let b = bytes[1] as int;
        let c = bytes[2] as int;
        seq![
            base64_char(a / 4),
            base64_char((a % 4) * 16 + b / 16),
            base64_char((b % 16) * 4 + c / 64),
            base64_char(c % 64),
        ] + base64_encode(bytes.subrange(3, bytes.len() as int))
    }
}

/// Calls `Engine::encode` of `base64::engine::general_purpose::STANDARD`
/// (standard alphabet, with padding), which gives the standard encoding
/// `base64_encode` of the bytes.
#[verifier::external_body]
pub(crate) fn encode_base64(bytes: &[u8]) -> (s: String)
    ensures
        s@ == base64_encode(bytes@),
{
    base64::engine::general_purpose::STANDARD.encode(bytes)
}

/// The base64 text of inline data.
pub open spec fn data_base64(d: DataContent) -> Seq<char> {
    match d {
        DataContent::Base64(s) => s@,
        DataContent::Bytes(b) => base64_encode(b@),
    }
}

impl DataContent {
    /// The data as base64 text.
    pub fn to_base64(&self) -> (s: String)
        ensures
            s@ == data_base64(*self),
    {
        match self {
            DataContent::Base64(s) => s.clone(),
            DataContent::Bytes(b) => encode_base64(b.as_slice()),
        }
    }
}

/// A prompt in its standard form: a text prompt is one user message; a
/// conversation must hold at least one message.
pub fn standardize_prompt(system: Option<String>, content: PromptContent) -> (r: Result<StandardizedPrompt, AISDKError>)
    ensures
        match content {
            PromptContent::Text { text } => r matches Ok(p) && p.system == system && p.messages@ == seq![
                ModelMessage::User(UserModelMessage { content: UserContent::Text(text), provider_options: None }),
            ],
            PromptContent::Messages { messages } => if messages@.len() == 0 {
                r matches Err(AISDKError::InvalidPrompt { message: m }) && m@ == "messages must not be empty"@
            } else {
                r matches Ok(p) && p.system == system && p.messages == messages
            },
        },
{
    match content {
        PromptContent::Text { text } => {
            let m = ModelMessage::User(UserModelMessage { content: UserContent::Text(text), provider_options: None });
            Ok(StandardizedPrompt { system, messages: vec![m] })
        },
        PromptContent::Messages { messages } => {
            if messages.len() == 0 {
                proof {
                    reveal_strlit("messages must not be empty");
                }
                Err(AISDKError::invalid_prompt("messages must not be empty"))
            } else {
                Ok(StandardizedPrompt { system, messages })
            }
        },
    }
}

} // verus!

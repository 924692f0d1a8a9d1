//! Streaming text generation: the parts of a text stream, their conversion
//! from what the provider streams, and the decisions taken about tool calls
//! while a stream runs.

pub mod run_tools;
pub mod enriched;
pub mod event_processor;
pub mod single_step;

use crate::generate_text::content::{SourceOutput, ToolApprovalRequestOutput};
use crate::generate_text::step_result::RequestMetadata;
use crate::generate_text::tool_types::{StaticToolCall, StaticToolResult, TypedToolCall, TypedToolError, TypedToolResult};
use crate::json::{
    json_i64, json_i64_value, json_object, json_object_value, json_parse, json_string, json_string_value, null_json,
    parse_json,
};
use crate::prompt::{data_base64, DataContent};
use crate::provider::{
    LanguageModelCallWarning, LanguageModelFile, LanguageModelFinishReason, LanguageModelResponseMetadata,
    LanguageModelUsage, ProviderMetadata, StreamPart,
};
use crate::text::push_str;
use serde_json::Value;
use vstd::prelude::*;

verus! {

/// A generated file as a stream carries it.
#[derive(Debug, Clone, PartialEq, Eq)]
pub struct StreamGeneratedFile {
    /// The file content as base64 text.
    pub base64: String,
    /// The IANA media type of the file.
    pub media_type: String,
    pub name: Option<String>,
}

/// A part of a text stream.
#[derive(Debug, Clone, PartialEq)]
pub enum TextStreamPart<INPUT = Value, OUTPUT = Value> {
    TextStart { id: String, provider_metadata: Option<ProviderMetadata> },
    TextEnd { id: String, provider_metadata: Option<ProviderMetadata> },
    TextDelta { id: String, provider_metadata: Option<ProviderMetadata>, text: String },
    ReasoningStart { id: String, provider_metadata: Option<ProviderMetadata> },
    ReasoningEnd { id: String, provider_metadata: Option<ProviderMetadata> },
    ReasoningDelta { id: String, provider_metadata: Option<ProviderMetadata>, text: String },
    ToolInputStart {
        id: String,
        tool_name: String,
        provider_metadata: Option<ProviderMetadata>,
        provider_executed: Option<bool>,
        dynamic: Option<bool>,
        title: Option<String>,
    },
    ToolInputEnd { id: String, provider_metadata: Option<ProviderMetadata> },
    ToolInputDelta { id: String, delta: String, provider_metadata: Option<ProviderMetadata> },
    Source { source: SourceOutput },
    File { file: StreamGeneratedFile },
    ToolCall { tool_call: TypedToolCall<INPUT> },
    ToolResult { tool_result: TypedToolResult<INPUT, OUTPUT> },
    ToolError { tool_error: TypedToolError<INPUT> },
    ToolOutputDenied {
        tool_call_id: String,
        tool_name: String,
        input: INPUT,
        reason: Option<String>,
        provider_executed: Option<bool>,
        dynamic: Option<bool>,
    },
    ToolApprovalRequest { approval_request: ToolApprovalRequestOutput<INPUT> },
    StartStep { request: RequestMetadata, warnings: Vec<LanguageModelCallWarning> },
    FinishStep {
        response: LanguageModelResponseMetadata,
        usage: LanguageModelUsage,
        finish_reason: LanguageModelFinishReason,
        provider_metadata: Option<ProviderMetadata>,
    },
    Start,
    Finish { finish_reason: LanguageModelFinishReason, total_usage: LanguageModelUsage },
    Abort,
    Error { error: Value },
    Raw { raw_value: Value },
}

/// A part of the stream of a single model request, with tool calls parsed
/// and tool results added.
#[derive(Debug, Clone, PartialEq)]
pub enum SingleRequestTextStreamPart<INPUT = Value, OUTPUT = Value> {
    TextStart { id: String, provider_metadata: Option<ProviderMetadata> },
    TextEnd { id: String, provider_metadata: Option<ProviderMetadata> },
    TextDelta { id: String, provider_metadata: Option<ProviderMetadata>, delta: String },
    ReasoningStart { id: String, provider_metadata: Option<ProviderMetadata> },
    ReasoningEnd { id: String, provider_metadata: Option<ProviderMetadata> },
    ReasoningDelta { id: String, provider_metadata: Option<ProviderMetadata>, delta: String },
    ToolInputStart {
        id: String,
        tool_name: String,
        provider_metadata: Option<ProviderMetadata>,
        dynamic: Option<bool>,
        title: Option<String>,
    },
    ToolInputEnd { id: String, provider_metadata: Option<ProviderMetadata> },
    ToolInputDelta { id: String, delta: String, provider_metadata: Option<ProviderMetadata> },
    ToolApprovalRequest { approval_request: ToolApprovalRequestOutput<INPUT> },
    Source { source: SourceOutput },
    File { file: StreamGeneratedFile },
    ToolCall { tool_call: TypedToolCall<INPUT> },
    ToolResult { tool_result: TypedToolResult<INPUT, OUTPUT> },
    ToolError { tool_error: TypedToolError<INPUT> },
    StreamStart { warnings: Vec<LanguageModelCallWarning> },
    ResponseMetadata { id: Option<String>, timestamp: Option<String>, model_id: Option<String> },
    Finish {
        finish_reason: LanguageModelFinishReason,
        usage: LanguageModelUsage,
        provider_metadata: Option<ProviderMetadata>,
    },
    Error { error: Value },
    Raw { raw_value: Value },
}

impl<INPUT, OUTPUT> SingleRequestTextStreamPart<INPUT, OUTPUT> {
    pub fn text_start(id: &str) -> (p: Self)
        ensures
            p matches SingleRequestTextStreamPart::TextStart { id: i, provider_metadata: None } && i@ == id@,
    {
        SingleRequestTextStreamPart::TextStart { id: id.to_owned(), provider_metadata: None }
    }

    pub fn text_delta(id: &str, delta: &str) -> (p: Self)
        ensures
            p matches SingleRequestTextStreamPart::TextDelta { id: i, provider_metadata: None, delta: d }
                && i@ == id@ && d@ == delta@,
    {
        SingleRequestTextStreamPart::TextDelta { id: id.to_owned(), provider_metadata: None, delta: delta.to_owned() }
    }

    pub fn text_end(id: &str) -> (p: Self)
        ensures
            p matches SingleRequestTextStreamPart::TextEnd { id: i, provider_metadata: None } && i@ == id@,
    {
        SingleRequestTextStreamPart::TextEnd { id: id.to_owned(), provider_metadata: None }
    }

    pub fn reasoning_start(id: &str) -> (p: Self)
        ensures
            p matches SingleRequestTextStreamPart::ReasoningStart { id: i, provider_metadata: None } && i@ == id@,
    {
        SingleRequestTextStreamPart::ReasoningStart { id: id.to_owned(), provider_metadata: None }
    }

    pub fn reasoning_delta(id: &str, delta: &str) -> (p: Self)
        ensures
            p matches SingleRequestTextStreamPart::ReasoningDelta { id: i, provider_metadata: None, delta: d }
                && i@ == id@ && d@ == delta@,
    {
        SingleRequestTextStreamPart::ReasoningDelta {
            id: id.to_owned(),
            provider_metadata: None,
            delta: delta.to_owned(),
        }
    }

    pub fn reasoning_end(id: &str) -> (p: Self)
        ensures
            p matches SingleRequestTextStreamPart::ReasoningEnd { id: i, provider_metadata: None } && i@ == id@,
    {
        SingleRequestTextStreamPart::ReasoningEnd { id: id.to_owned(), provider_metadata: None }
    }

    pub fn tool_input_start(id: &str, tool_name: &str) -> (p: Self)
        ensures
            p matches SingleRequestTextStreamPart::ToolInputStart {
                id: i,
                tool_name: n,
                provider_metadata: None,
                dynamic: None,
                title: None,
            } && i@ == id@ && n@ == tool_name@,
    {
        SingleRequestTextStreamPart::ToolInputStart {
            id: id.to_owned(),
            tool_name: tool_name.to_owned(),
            provider_metadata: None,
            dynamic: None,
            title: None,
        }
    }

    pub fn tool_input_delta(id: &str, delta: &str) -> (p: Self)
        ensures
            p matches SingleRequestTextStreamPart::ToolInputDelta { id: i, delta: d, provider_metadata: None }
                && i@ == id@ && d@ == delta@,
    {
        SingleRequestTextStreamPart::ToolInputDelta { id: id.to_owned(), delta: delta.to_owned(), provider_metadata: None }
    }

    pub fn tool_input_end(id: &str) -> (p: Self)
        ensures
            p matches SingleRequestTextStreamPart::ToolInputEnd { id: i, provider_metadata: None } && i@ == id@,
    {
        SingleRequestTextStreamPart::ToolInputEnd { id: id.to_owned(), provider_metadata: None }
    }

    pub fn stream_start(warnings: Vec<LanguageModelCallWarning>) -> (p: Self)
        ensures
            p == (SingleRequestTextStreamPart::<INPUT, OUTPUT>::StreamStart { warnings }),
    {
        SingleRequestTextStreamPart::StreamStart { warnings }
    }

    pub fn finish(finish_reason: LanguageModelFinishReason, usage: LanguageModelUsage) -> (p: Self)
        ensures
            p == (SingleRequestTextStreamPart::<INPUT, OUTPUT>::Finish { finish_reason, usage, provider_metadata: None }),
    {
        SingleRequestTextStreamPart::Finish { finish_reason, usage, provider_metadata: None }
    }

    pub fn error(error: Value) -> (p: Self)
        ensures
            p == (SingleRequestTextStreamPart::<INPUT, OUTPUT>::Error { error }),
    {
        SingleRequestTextStreamPart::Error { error }
    }

    pub fn raw(raw_value: Value) -> (p: Self)
        ensures
            p == (SingleRequestTextStreamPart::<INPUT, OUTPUT>::Raw { raw_value }),
    {
        SingleRequestTextStreamPart::Raw { raw_value }
    }
}

/// The character of a decimal digit.
pub open spec fn digit_char(d: int) -> char {
    seq!['0', '1', '2', '3', '4', '5', '6', '7', '8', '9'][d]
}

/// The decimal digits of a natural number, most significant first.
pub open spec fn decimal_digits(n: nat) -> Seq<char>
    decreases n,
{
    if n < 10 {
        seq![digit_char(n as int)]
    } else {
        decimal_digits(n / 10) + seq![digit_char((n % 10) as int)]
    }
}

/// The decimal text of an integer, with a minus sign when it is negative.
pub open spec fn signed_decimal(i: int) -> Seq<char> {
    if i < 0 {
        seq!['-'] + decimal_digits((-i) as nat)
    } else {
        decimal_digits(i as nat)
    }
}

/// The text of one decimal digit.
fn digit_text(d: u64) -> (t: &'static str)
    requires
        d < 10,
    ensures
        t@ == seq![digit_char(d as int)],
{
    match d {
        0 => {
            proof {
                reveal_strlit("0");
            }
            "0"
        },
        1 => {
            proof {
                reveal_strlit("1");
            }
            "1"
        },
        2 => {
            proof {
                reveal_strlit("2");
            }
            "2"
        },
        3 => {
            proof {
                reveal_strlit("3");
            }
            "3"
        },
        4 => {
            proof {
                reveal_strlit("4");
            }
            "4"
        },
        5 => {
            proof {
                reveal_strlit("5");
            }
            "5"
        },
        6 => {
            proof {
                reveal_strlit("6");
            }
            "6"
        },
        7 => {
            proof {
                reveal_strlit("7");
            }
            "7"
        },
        8 => {
            proof {
                reveal_strlit("8");
            }
            "8"
        },
        _ => {
            proof {
                reveal_strlit("9");
            }
            "9"
        },
    }
}

/// The decimal text of a number, most significant digit first.
pub(crate) fn decimal_text(n: u64) -> (s: String)
    ensures
        s@ == decimal_digits(n as nat),
    decreases n,
{
    if n < 10 {
        let mut s = String::new();
        push_str(&mut s, digit_text(n));
        s
    } else {
        let mut s = decimal_text(n / 10);
        push_str(&mut s, digit_text(n % 10));
        s
    }
}

/// The decimal text of an integer, with a minus sign when it is negative.
pub(crate) fn i64_text(i: i64) -> (s: String)
    ensures
        s@ == signed_decimal(i as int),
{
    if i < 0 {
        let magnitude: u64 = (-(i as i128)) as u64;
        let mut s = String::new();
        push_str(&mut s, "-");
        let digits = decimal_text(magnitude);
        push_str(&mut s, digits.as_str());
        proof {
            reveal_strlit("-");
        }
        s
    } else {
        decimal_text(i as u64)
    }
}

/// A generated file of the provider as a stream carries it: as base64
/// text, without a name.
pub fn stream_file(file: LanguageModelFile) -> (f: StreamGeneratedFile)
    ensures
        f.base64@ == data_base64(file.data),
        f.media_type == file.media_type,
        f.name is None,
{
    let base64 = match file.data {
        DataContent::Base64(s) => s,
        DataContent::Bytes(b) => crate::prompt::encode_base64(b.as_slice()),
    };
    StreamGeneratedFile { base64, media_type: file.media_type, name: None }
}

/// The value that a tool call's input text stands for in a text stream:
/// the parsed JSON, or JSON null when the text does not parse.
pub open spec fn stream_input(text: Seq<char>, v: Value) -> bool {
    match json_parse(text) {
        Some(p) => v == p,
        None => json_parse(seq!['n', 'u', 'l', 'l']) == Some(v),
    }
}

/// How a provider's stream part reads as a part of a text stream.
pub open spec fn text_stream_part_of(p: StreamPart, t: TextStreamPart<Value, Value>) -> bool {
    match p {
        StreamPart::TextStart { id, provider_metadata } => t == TextStreamPart::<Value, Value>::TextStart { id, provider_metadata },
        StreamPart::TextDelta { id, delta, provider_metadata } => t == TextStreamPart::<Value, Value>::TextDelta {
            id,
            provider_metadata,
            text: delta,
        },
        StreamPart::TextEnd { id, provider_metadata } => t == TextStreamPart::<Value, Value>::TextEnd { id, provider_metadata },
        StreamPart::ReasoningStart { id, provider_metadata } => t == TextStreamPart::<Value, Value>::ReasoningStart {
            id,
            provider_metadata,
        },
        StreamPart::ReasoningDelta { id, delta, provider_metadata } => t
            == TextStreamPart::<Value, Value>::ReasoningDelta { id, provider_metadata, text: delta },
        StreamPart::ReasoningEnd { id, provider_metadata } => t == TextStreamPart::<Value, Value>::ReasoningEnd {
            id,
            provider_metadata,
        },
        StreamPart::ToolInputStart { id, tool_name, provider_metadata, provider_executed } => t
            == TextStreamPart::<Value, Value>::ToolInputStart {
            id,
            tool_name,
            provider_metadata,
            provider_executed,
            dynamic: None,
            title: None,
        },
        StreamPart::ToolInputDelta { id, delta, provider_metadata } => t == TextStreamPart::<Value, Value>::ToolInputDelta {
            id,
            delta,
            provider_metadata,
        },
        StreamPart::ToolInputEnd { id, provider_metadata } => t == TextStreamPart::<Value, Value>::ToolInputEnd {
            id,
            provider_metadata,
        },
        StreamPart::ToolCall(tc) => t matches TextStreamPart::ToolCall { tool_call: TypedToolCall::Static(c) }
            && c.call_type@ == "tool-call"@ && c.tool_call_id@ == tc.tool_call_id@ && c.tool_name@ == tc.tool_name@
            && stream_input(tc.input@, c.input) && c.provider_executed is None && c.provider_metadata is None
            && c.dynamic is None && c.invalid is None,
        StreamPart::ToolResult(tr) => t matches TextStreamPart::ToolResult { tool_result: TypedToolResult::Static(r) }
            && r.result_type@ == "tool-result"@ && r.tool_call_id@ == tr.tool_call_id@ && r.tool_name@ == tr.tool_name@
            && json_parse(seq!['n', 'u', 'l', 'l']) == Some(r.input) && r.output == tr.result && r.provider_executed is None
            && r.dynamic is None && r.preliminary is None,
        StreamPart::File(file) => t matches TextStreamPart::File { file: f } && f.base64@ == data_base64(file.data)
            && f.media_type == file.media_type && f.name is None,
        StreamPart::Source(source) => t == TextStreamPart::<Value, Value>::Source { source: SourceOutput { source } },
        StreamPart::StreamStart { .. } => t == TextStreamPart::<Value, Value>::Start,
        StreamPart::ResponseMetadata(m) => t == TextStreamPart::<Value, Value>::Raw { raw_value: response_metadata_json_of(m) },
        StreamPart::Finish { finish_reason, usage, .. } => t == TextStreamPart::<Value, Value>::Finish {
            finish_reason,
            total_usage: usage,
        },
        StreamPart::Error { error } => t == TextStreamPart::<Value, Value>::Error { error },
        StreamPart::Raw { raw_value } => t == TextStreamPart::<Value, Value>::Raw { raw_value },
    }
}

/// The `id` field of response metadata in JSON, when there is an id.
pub open spec fn id_field(m: LanguageModelResponseMetadata) -> Seq<(Seq<char>, Value)> {
    match m.id {
        Some(id) => seq![("id"@, json_string_value(id@))],
        None => Seq::empty(),
    }
}

/// The `timestamp` field of response metadata in JSON, when there is one.
pub open spec fn timestamp_field(m: LanguageModelResponseMetadata) -> Seq<(Seq<char>, Value)> {
    match m.timestamp {
        Some(ts) => seq![("timestamp"@, json_i64_value(ts as int))],
        None => Seq::empty(),
    }
}

/// The `modelId` field of response metadata in JSON, when there is a model id.
pub open spec fn model_id_field(m: LanguageModelResponseMetadata) -> Seq<(Seq<char>, Value)> {
    match m.model_id {
        Some(model_id) => seq![("modelId"@, json_string_value(model_id@))],
        None => Seq::empty(),
    }
}

/// The fields of response metadata in JSON: `id`, `timestamp` and
/// `modelId`, in that order, each when it is present.
pub open spec fn response_metadata_fields(m: LanguageModelResponseMetadata) -> Seq<(Seq<char>, Value)> {
    id_field(m) + timestamp_field(m) + model_id_field(m)
}

/// Response metadata as a JSON object.
pub open spec fn response_metadata_json_of(m: LanguageModelResponseMetadata) -> Value {
    json_object_value(response_metadata_fields(m))
}

/// Builds the JSON object of response metadata: its fields that are
/// present, under camel-case keys.
pub fn response_metadata_json(m: &LanguageModelResponseMetadata) -> (v: Value)
    ensures
        v == response_metadata_json_of(*m),
{
    let mut fields: Vec<(String, Value)> = Vec::new();
    let ghost a = id_field(*m);
    let ghost b = timestamp_field(*m);
    match &m.id {
        Some(id) => fields.push(("id".to_owned(), json_string(id.as_str()))),
        None => {},
    }
    assert(fields@.map_values(|f: (String, Value)| (f.0@, f.1)) =~= a);
    let ghost before_ts = fields@;
    match m.timestamp {
        Some(ts) => fields.push(("timestamp".to_owned(), json_i64(ts))),
        None => {},
    }
    assert(fields@.map_values(|f: (String, Value)| (f.0@, f.1)) =~= a + b) by {
        assert(fields@.take(before_ts.len() as int) =~= before_ts);
    }
    let ghost before_model = fields@;
    match &m.model_id {
        Some(model_id) => fields.push(("modelId".to_owned(), json_string(model_id.as_str()))),
        None => {},
    }
    assert(fields@.map_values(|f: (String, Value)| (f.0@, f.1)) =~= response_metadata_fields(*m)) by {
        assert(fields@.take(before_model.len() as int) =~= before_model);
    }
    json_object(fields)
}

/// Converts a provider's stream part to a part of a text stream. Tool call
/// inputs are parsed (JSON null when they do not parse); the results of
/// provider-run tools carry a null input. Response metadata is passed on as
/// a raw part that holds its JSON.
pub fn convert_stream_part_to_text_stream_part(stream_part: StreamPart) -> (t: TextStreamPart<Value, Value>)
    ensures
        text_stream_part_of(stream_part, t),
{
    match stream_part {
        StreamPart::TextStart { id, provider_metadata } => TextStreamPart::TextStart { id, provider_metadata },
        StreamPart::TextDelta { id, delta, provider_metadata } => TextStreamPart::TextDelta {
            id,
            provider_metadata,
            text: delta,
        },
        StreamPart::TextEnd { id, provider_metadata } => TextStreamPart::TextEnd { id, provider_metadata },
        StreamPart::ReasoningStart { id, provider_metadata } => TextStreamPart::ReasoningStart { id, provider_metadata },
        StreamPart::ReasoningDelta { id, delta, provider_metadata } => TextStreamPart::ReasoningDelta {
            id,
            provider_metadata,
            text: delta,
        },
        StreamPart::ReasoningEnd { id, provider_metadata } => TextStreamPart::ReasoningEnd { id, provider_metadata },
        StreamPart::ToolInputStart { id, tool_name, provider_metadata, provider_executed } => TextStreamPart::ToolInputStart {
            id,
            tool_name,
            provider_metadata,
            provider_executed,
            dynamic: None,
            title: None,
        },
        StreamPart::ToolInputDelta { id, delta, provider_metadata } => TextStreamPart::ToolInputDelta {
            id,
            delta,
            provider_metadata,
        },
        StreamPart::ToolInputEnd { id, provider_metadata } => TextStreamPart::ToolInputEnd { id, provider_metadata },
        StreamPart::ToolCall(tc) => {
            let input = match parse_json(tc.input.as_str()) {
                Ok(v) => v,
                Err(_) => null_json(),
            };
            let call = StaticToolCall::new(tc.tool_call_id.as_str(), tc.tool_name.as_str(), input);
            TextStreamPart::ToolCall { tool_call: TypedToolCall::Static(call) }
        },
        StreamPart::ToolResult(tr) => {
            let r = StaticToolResult::new(tr.tool_call_id.as_str(), tr.tool_name.as_str(), null_json(), tr.result);
            TextStreamPart::ToolResult { tool_result: TypedToolResult::Static(r) }
        },
        StreamPart::File(file) => TextStreamPart::File { file: stream_file(file) },
        StreamPart::Source(source) => TextStreamPart::Source { source: SourceOutput::new(source) },
        StreamPart::StreamStart { .. } => TextStreamPart::Start,
        StreamPart::Finish { finish_reason, usage, .. } => TextStreamPart::Finish { finish_reason, total_usage: usage },
        StreamPart::Error { error } => TextStreamPart::Error { error },
        StreamPart::Raw { raw_value } => TextStreamPart::Raw { raw_value },
        StreamPart::ResponseMetadata(m) => TextStreamPart::Raw { raw_value: response_metadata_json(&m) },
    }
}

} // verus!

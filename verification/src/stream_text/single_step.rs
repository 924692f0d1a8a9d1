use super::{stream_file, TextStreamPart};
use crate::error::{error_text, AISDKError};
use crate::generate_text::as_content::{call_copy, copy_call, output_part};
use crate::generate_text::content::{ContentPart, ReasoningOutput, SourceOutput, TextOutput};
use crate::generate_text::parse_tool_call::{
    dynamic_call_of, parse_outcome, parse_provider_executed_dynamic_tool_call, parse_tool_call, parsed_input,
    same_metadata,
};
use crate::generate_text::prepare_tools::same_text;
use crate::generate_text::step_result::RequestMetadata;
use crate::generate_text::tool_types::{DynamicToolResult, StaticToolResult, ToolOutput, TypedToolCall, TypedToolResult};
use crate::json::{json_parse, json_parse_error, json_text, json_text_field, json_to_string, null_json, text_field_object};
use crate::prompt::data_base64;
use crate::provider::{
    LanguageModelCallWarning, LanguageModelFinishReason, LanguageModelResponseMetadata, LanguageModelSource,
    LanguageModelToolCall, LanguageModelToolResult, LanguageModelUsage, ProviderMetadata, StreamPart,
};
use crate::text::push_str;
use crate::tool::ToolSet;
use serde_json::Value;
use vstd::prelude::*;

verus! {

/// `b` is a copy of the source `a` (metadata equal in content).
pub open spec fn source_copy(a: LanguageModelSource, b: LanguageModelSource) -> bool {
    match (a, b) {
        (
            LanguageModelSource::Url { id: i1, url: u1, title: t1, provider_metadata: m1 },
            LanguageModelSource::Url { id: i2, url: u2, title: t2, provider_metadata: m2 },
        ) => i1@ == i2@ && u1@ == u2@ && same_text(t1, t2) && same_metadata(m1, m2),
        (
            LanguageModelSource::Document { id: i1, media_type: t1, title: n1, filename: f1, provider_metadata: m1 },
            LanguageModelSource::Document { id: i2, media_type: t2, title: n2, filename: f2, provider_metadata: m2 },
        ) => i1@ == i2@ && t1@ == t2@ && n1@ == n2@ && same_text(f1, f2) && same_metadata(m1, m2),
        _ => false,
    }
}

pub(crate) fn copy_text(a: &Option<String>) -> (b: Option<String>)
    ensures
        same_text(*a, b),
{
    match a {
        Some(s) => Some(s.clone()),
        None => None,
    }
}

pub(crate) fn copy_metadata(a: &Option<ProviderMetadata>) -> (b: Option<ProviderMetadata>)
    ensures
        same_metadata(*a, b),
{
    match a {
        Some(m) => Some(m.clone()),
        None => None,
    }
}

pub(crate) fn copy_source(s: &LanguageModelSource) -> (r: LanguageModelSource)
    ensures
        source_copy(*s, r),
{
    match s {
        LanguageModelSource::Url { id, url, title, provider_metadata } => LanguageModelSource::Url {
            id: id.clone(),
            url: url.clone(),
            title: copy_text(title),
            provider_metadata: copy_metadata(provider_metadata),
        },
        LanguageModelSource::Document { id, media_type, title, filename, provider_metadata } => LanguageModelSource::Document {
            id: id.clone(),
            media_type: media_type.clone(),
            title: title.clone(),
            filename: copy_text(filename),
            provider_metadata: copy_metadata(provider_metadata),
        },
    }
}

/// `b` is a copy of the warning `a`.
pub open spec fn warning_copy(a: LanguageModelCallWarning, b: LanguageModelCallWarning) -> bool {
    match (a, b) {
        (
            LanguageModelCallWarning::UnsupportedSetting { setting: s1, details: d1 },
            LanguageModelCallWarning::UnsupportedSetting { setting: s2, details: d2 },
        ) => s1@ == s2@ && same_text(d1, d2),
        (
            LanguageModelCallWarning::UnsupportedTool { tool_name: n1, details: d1 },
            LanguageModelCallWarning::UnsupportedTool { tool_name: n2, details: d2 },
        ) => n1@ == n2@ && same_text(d1, d2),
        (LanguageModelCallWarning::Other { message: m1 }, LanguageModelCallWarning::Other { message: m2 }) => m1@
            == m2@,
        _ => false,
    }
}

/// `b` is a copy of the warnings `a`, one by one.
pub open spec fn warnings_copy(a: Seq<LanguageModelCallWarning>, b: Seq<LanguageModelCallWarning>) -> bool {
    a.len() == b.len() && forall|i: int| 0 <= i < a.len() ==> warning_copy(#[trigger] a[i], b[i])
}

pub(crate) fn copy_warnings(ws: &Vec<LanguageModelCallWarning>) -> (r: Vec<LanguageModelCallWarning>)
    ensures
        warnings_copy(ws@, r@),
{
    let mut r: Vec<LanguageModelCallWarning> = Vec::new();
    let n = ws.len();
    let mut i: usize = 0;
    while i < n
        invariant
            n == ws@.len(),
            i <= n,
            r@.len() == i,
            forall|k: int| 0 <= k < i ==> warning_copy(#[trigger] ws@[k], r@[k]),
        decreases n - i,
    {
        let w = match &ws[i] {
            LanguageModelCallWarning::UnsupportedSetting { setting, details } => LanguageModelCallWarning::UnsupportedSetting {
                setting: setting.clone(),
                details: copy_text(details),
            },
            LanguageModelCallWarning::UnsupportedTool { tool_name, details } => LanguageModelCallWarning::UnsupportedTool {
                tool_name: tool_name.clone(),
                details: copy_text(details),
            },
            LanguageModelCallWarning::Other { message } => LanguageModelCallWarning::Other { message: message.clone() },
        };
        r.push(w);
        i = i + 1;
    }
    r
}

/// `b` is a copy of the tool result `a`.
pub open spec fn result_copy(a: TypedToolResult<Value, Value>, b: TypedToolResult<Value, Value>) -> bool {
    match (a, b) {
        (TypedToolResult::Static(x), TypedToolResult::Static(y)) => x.result_type@ == y.result_type@ && x.tool_call_id@
            == y.tool_call_id@ && x.tool_name@ == y.tool_name@ && x.input == y.input && x.output == y.output
            && x.provider_executed == y.provider_executed && x.dynamic == y.dynamic && x.preliminary == y.preliminary,
        (TypedToolResult::Dynamic(x), TypedToolResult::Dynamic(y)) => x.result_type@ == y.result_type@
            && x.tool_call_id@ == y.tool_call_id@ && x.tool_name@ == y.tool_name@ && x.input == y.input && x.output
            == y.output && x.provider_executed == y.provider_executed && x.dynamic == y.dynamic && x.preliminary
            == y.preliminary,
        _ => false,
    }
}

pub(crate) fn copy_result(r: &TypedToolResult<Value, Value>) -> (c: TypedToolResult<Value, Value>)
    ensures
        result_copy(*r, c),
{
    match r {
        TypedToolResult::Static(x) => TypedToolResult::Static(
            StaticToolResult {
                result_type: x.result_type.clone(),
                tool_call_id: x.tool_call_id.clone(),
                tool_name: x.tool_name.clone(),
                input: x.input.clone(),
                output: x.output.clone(),
                provider_executed: x.provider_executed,
                dynamic: x.dynamic,
                preliminary: x.preliminary,
            },
        ),
        TypedToolResult::Dynamic(x) => TypedToolResult::Dynamic(
            DynamicToolResult {
                result_type: x.result_type.clone(),
                tool_call_id: x.tool_call_id.clone(),
                tool_name: x.tool_name.clone(),
                input: x.input.clone(),
                output: x.output.clone(),
                provider_executed: x.provider_executed,
                dynamic: x.dynamic,
                preliminary: x.preliminary,
            },
        ),
    }
}

/// `after` is `before` with the gathered text closed: followed by a text
/// part holding it, when there is any.
pub open spec fn text_closed(
    before: Seq<ContentPart<Value, Value>>,
    text: Seq<char>,
    after: Seq<ContentPart<Value, Value>>,
) -> bool {
    if text.len() > 0 {
        &&& after.len() == before.len() + 1
        &&& after.drop_last() == before
        &&& after.last() matches ContentPart::Text(t) && t.text@ == text
    } else {
        after == before
    }
}

/// `after` is `before` with the gathered reasoning closed: followed by a
/// reasoning part holding it, when there is any.
pub open spec fn reasoning_closed(
    before: Seq<ContentPart<Value, Value>>,
    text: Seq<char>,
    after: Seq<ContentPart<Value, Value>>,
) -> bool {
    if text.len() > 0 {
        &&& after.len() == before.len() + 1
        &&& after.drop_last() == before
        &&& after.last() matches ContentPart::Reasoning(r) && r.text@ == text && r.provider_metadata is None
    } else {
        after == before
    }
}

/// What a step of a stream gathers as it runs: its content, its parsed tool
/// calls, the text and reasoning of the blocks that are open, and what the
/// provider said of the request and of how the step finished.
#[derive(Debug)]
pub struct SingleStepState {
    pub content: Vec<ContentPart<Value, Value>>,
    pub tool_calls: Vec<TypedToolCall<Value>>,
    pub current_text: String,
    pub current_reasoning: String,
    pub request_body: Option<Value>,
    pub warnings: Option<Vec<LanguageModelCallWarning>>,
    pub finish_reason: LanguageModelFinishReason,
    pub usage: LanguageModelUsage,
    pub provider_metadata: Option<ProviderMetadata>,
}

/// What the stream does with a part of the provider's stream.
#[derive(Debug)]
pub enum StepEvent {
    /// Passes this part on.
    Emit(TextStreamPart<Value, Value>),
    /// Passes nothing on.
    Skip,
    /// Ends the step with this error; `reported` is what the error callback
    /// is told.
    Fail { error: AISDKError, reported: Value },
}

impl SingleStepState {
    /// The state at the start of a step whose request carried `request_body`.
    pub fn new(request_body: Option<Value>) -> (s: Self)
        ensures
            s.content@.len() == 0,
            s.tool_calls@.len() == 0,
            s.current_text@.len() == 0,
            s.current_reasoning@.len() == 0,
            s.request_body == request_body,
            s.warnings is None,
            s.finish_reason == LanguageModelFinishReason::Unknown,
            s.usage == (LanguageModelUsage {
                input_tokens: 0,
                output_tokens: 0,
                total_tokens: 0,
                reasoning_tokens: 0,
                cached_input_tokens: 0,
            }),
            s.provider_metadata is None,
    {
        SingleStepState {
            content: Vec::new(),
            tool_calls: Vec::new(),
            current_text: String::new(),
            current_reasoning: String::new(),
            request_body,
            warnings: None,
            finish_reason: LanguageModelFinishReason::Unknown,
            usage: LanguageModelUsage {
                input_tokens: 0,
                output_tokens: 0,
                total_tokens: 0,
                reasoning_tokens: 0,
                cached_input_tokens: 0,
            },
            provider_metadata: None,
        }
    }

    /// Closes the open text: it becomes a text part when there is any.
    fn flush_text(&mut self)
        ensures
            text_closed(old(self).content@, old(self).current_text@, final(self).content@),
            final(self).current_text@.len() == 0,
            final(self).current_reasoning == old(self).current_reasoning,
            final(self).tool_calls == old(self).tool_calls,
            final(self).request_body == old(self).request_body,
            final(self).warnings == old(self).warnings,
            final(self).finish_reason == old(self).finish_reason,
            final(self).usage == old(self).usage,
            final(self).provider_metadata == old(self).provider_metadata,
    {
        if !self.current_text.as_str().is_empty() {
            let mut t = String::new();
            std::mem::swap(&mut t, &mut self.current_text);
            let ghost before = self.content@;
            self.content.push(ContentPart::Text(TextOutput::new(t)));
            assert(self.content@.drop_last() =~= before);
        }
    }

    /// Closes the open reasoning: it becomes a reasoning part when there is any.
    fn flush_reasoning(&mut self)
        ensures
            reasoning_closed(old(self).content@, old(self).current_reasoning@, final(self).content@),
            final(self).current_reasoning@.len() == 0,
            final(self).current_text == old(self).current_text,
            final(self).tool_calls == old(self).tool_calls,
            final(self).request_body == old(self).request_body,
            final(self).warnings == old(self).warnings,
            final(self).finish_reason == old(self).finish_reason,
            final(self).usage == old(self).usage,
            final(self).provider_metadata == old(self).provider_metadata,
    {
        if !self.current_reasoning.as_str().is_empty() {
            let mut t = String::new();
            std::mem::swap(&mut t, &mut self.current_reasoning);
            let ghost before = self.content@;
            self.content.push(ContentPart::Reasoning(ReasoningOutput::new(t)));
            assert(self.content@.drop_last() =~= before);
        }
    }
}

/// What parsing a streamed tool call gives in a step: against the tool set
/// when there is one, else as a dynamic call that the provider ran.
pub open spec fn step_parse_outcome(
    tc: LanguageModelToolCall,
    tools: Option<&ToolSet>,
    r: Result<TypedToolCall<Value>, AISDKError>,
) -> bool {
    match tools {
        Some(ts) => parse_outcome(tc, *ts, r),
        None => match parsed_input(tc.input@) {
            Some(v) => r matches Ok(c) && dynamic_call_of(tc, v, Some(true), c),
            None => r matches Err(AISDKError::InvalidToolInput { tool_name: n, tool_input: i, message: m })
                && n@ == tc.tool_name@ && i@ == tc.input@ && m@ == "Failed to parse JSON: "@ + json_parse_error(
                tc.input@,
            ),
        },
    }
}

/// The typed result of a tool that the provider ran, in a step: dynamic
/// when its tool is not in the set, with a null input.
pub open spec fn step_tool_result(tr: LanguageModelToolResult, tools: Option<&ToolSet>, r: TypedToolResult<Value, Value>) -> bool {
    let dynamic = match tools {
        Some(ts) => ts.spec_get(tr.tool_name@) is None,
        None => true,
    };
    if dynamic {
        r matches TypedToolResult::Dynamic(d) && d.result_type@ == "tool-result"@ && d.tool_call_id@ == tr.tool_call_id@
            && d.tool_name@ == tr.tool_name@ && json_parse(seq!['n', 'u', 'l', 'l']) == Some(d.input) && d.output
            == tr.result && d.provider_executed == tr.provider_executed && d.dynamic && d.preliminary is None
    } else {
        r matches TypedToolResult::Static(x) && x.result_type@ == "tool-result"@ && x.tool_call_id@ == tr.tool_call_id@
            && x.tool_name@ == tr.tool_name@ && json_parse(seq!['n', 'u', 'l', 'l']) == Some(x.input) && x.output
            == tr.result && x.provider_executed == tr.provider_executed && x.dynamic is None && x.preliminary is None
    }
}

/// The fields that only the finish and the start of the stream change are
/// the same.
pub open spec fn keeps_step_info(a: SingleStepState, b: SingleStepState) -> bool {
    &&& b.request_body == a.request_body
    &&& b.warnings == a.warnings
    &&& b.finish_reason == a.finish_reason
    &&& b.usage == a.usage
    &&& b.provider_metadata == a.provider_metadata
}

/// The open blocks are the same.
pub open spec fn keeps_open_blocks(a: SingleStepState, b: SingleStepState) -> bool {
    b.current_text@ == a.current_text@ && b.current_reasoning@ == a.current_reasoning@
}

/// Nothing gathered changes.
pub open spec fn keeps_all(a: SingleStepState, b: SingleStepState) -> bool {
    &&& keeps_step_info(a, b)
    &&& keeps_open_blocks(a, b)
    &&& b.content@ == a.content@
    &&& b.tool_calls@ == a.tool_calls@
}

/// The provider's response metadata with nothing known.
pub open spec fn no_response_metadata() -> LanguageModelResponseMetadata {
    LanguageModelResponseMetadata { id: None, timestamp: None, model_id: None }
}

/// How a step takes in a part of the provider's stream: what it gathers,
/// and what it passes on.
pub open spec fn step_transition(
    a: SingleStepState,
    part: StreamPart,
    tools: Option<&ToolSet>,
    include_raw: bool,
    b: SingleStepState,
    ev: StepEvent,
) -> bool {
    match part {
        StreamPart::TextStart { id, provider_metadata } => keeps_all(a, b) && ev == StepEvent::Emit(
            TextStreamPart::TextStart { id, provider_metadata },
        ),
        StreamPart::TextDelta { id, delta, provider_metadata } => {
            &&& keeps_step_info(a, b)
            &&& b.content@ == a.content@ && b.tool_calls@ == a.tool_calls@
            &&& b.current_text@ == a.current_text@ + delta@ && b.current_reasoning@ == a.current_reasoning@
            &&& ev == StepEvent::Emit(TextStreamPart::TextDelta { id, provider_metadata, text: delta })
        },
        StreamPart::TextEnd { id, provider_metadata } => {
            &&& keeps_step_info(a, b)
            &&& text_closed(a.content@, a.current_text@, b.content@) && b.tool_calls@ == a.tool_calls@
            &&& b.current_text@.len() == 0 && b.current_reasoning@ == a.current_reasoning@
            &&& ev == StepEvent::Emit(TextStreamPart::TextEnd { id, provider_metadata })
        },
        StreamPart::ReasoningStart { id, provider_metadata } => keeps_all(a, b) && ev == StepEvent::Emit(
            TextStreamPart::ReasoningStart { id, provider_metadata },
        ),
        StreamPart::ReasoningDelta { id, delta, provider_metadata } => {
            &&& keeps_step_info(a, b)
            &&& b.content@ == a.content@ && b.tool_calls@ == a.tool_calls@
            &&& b.current_reasoning@ == a.current_reasoning@ + delta@ && b.current_text@ == a.current_text@
            &&& ev == StepEvent::Emit(TextStreamPart::ReasoningDelta { id, provider_metadata, text: delta })
        },
        StreamPart::ReasoningEnd { id, provider_metadata } => {
            &&& keeps_step_info(a, b)
            &&& reasoning_closed(a.content@, a.current_reasoning@, b.content@) && b.tool_calls@ == a.tool_calls@
            &&& b.current_reasoning@.len() == 0 && b.current_text@ == a.current_text@
            &&& ev == StepEvent::Emit(TextStreamPart::ReasoningEnd { id, provider_metadata })
        },
        StreamPart::ToolInputStart { id, tool_name, provider_metadata, provider_executed } => keeps_all(a, b) && ev
            == StepEvent::Emit(
            TextStreamPart::ToolInputStart {
                id,
                tool_name,
                provider_metadata,
                provider_executed,
                dynamic: None,
                title: None,
            },
        ),
        StreamPart::ToolInputDelta { id, delta, provider_metadata } => keeps_all(a, b) && ev == StepEvent::Emit(
            TextStreamPart::ToolInputDelta { id, delta, provider_metadata },
        ),
        StreamPart::ToolInputEnd { id, provider_metadata } => keeps_all(a, b) && ev == StepEvent::Emit(
            TextStreamPart::ToolInputEnd { id, provider_metadata },
        ),
        StreamPart::Source(source) => {
            &&& keeps_step_info(a, b) && keeps_open_blocks(a, b) && b.tool_calls@ == a.tool_calls@
            &&& b.content@.len() == a.content@.len() + 1 && b.content@.drop_last() == a.content@
            &&& b.content@.last() matches ContentPart::Source(o) && source_copy(source, o.source)
            &&& ev == StepEvent::Emit(TextStreamPart::Source { source: SourceOutput { source } })
        },
        StreamPart::File(file) => {
            &&& keeps_all(a, b)
            &&& ev matches StepEvent::Emit(TextStreamPart::File { file: f }) && f.base64@ == data_base64(file.data)
                && f.media_type == file.media_type && f.name is None
        },
        StreamPart::StreamStart { warnings } => {
            &&& keeps_open_blocks(a, b) && b.content@ == a.content@ && b.tool_calls@ == a.tool_calls@
            &&& b.request_body == a.request_body && b.finish_reason == a.finish_reason && b.usage == a.usage
                && b.provider_metadata == a.provider_metadata
            &&& if warnings@.len() == 0 {
                b.warnings is None
            } else {
                b.warnings matches Some(w) && warnings_copy(warnings@, w@)
            }
            &&& ev == StepEvent::Emit(
                TextStreamPart::StartStep { request: RequestMetadata { body: a.request_body }, warnings },
            )
        },
        StreamPart::Finish { usage, finish_reason, provider_metadata } => {
            &&& exists|mid: Seq<ContentPart<Value, Value>>|
                text_closed(a.content@, a.current_text@, mid) && reasoning_closed(
                    mid,
                    a.current_reasoning@,
                    b.content@,
                )
            &&& b.current_text@.len() == 0 && b.current_reasoning@.len() == 0 && b.tool_calls@ == a.tool_calls@
            &&& b.request_body == a.request_body && b.warnings == a.warnings
            &&& b.usage == usage && b.finish_reason == finish_reason && same_metadata(
                provider_metadata,
                b.provider_metadata,
            )
            &&& ev == StepEvent::Emit(
                TextStreamPart::FinishStep {
                    response: no_response_metadata(),
                    usage,
                    finish_reason,
                    provider_metadata,
                },
            )
        },
        StreamPart::Raw { raw_value } => keeps_all(a, b) && ev == if include_raw {
            StepEvent::Emit(TextStreamPart::Raw { raw_value })
        } else {
            StepEvent::Skip
        },
        StreamPart::Error { error } => {
            &&& keeps_all(a, b)
            &&& ev matches StepEvent::Fail { error: AISDKError::ModelError { message: m }, reported: r } && m@
                == "Stream error: "@ + json_text(error) && r == error
        },
        StreamPart::ResponseMetadata(_) => keeps_all(a, b) && ev is Skip,
        StreamPart::ToolCall(tc) => exists|p: Result<TypedToolCall<Value>, AISDKError>|
            {
                &&& #[trigger] step_parse_outcome(tc, tools, p)
                &&& match p {
                    Ok(c) => {
                        &&& keeps_step_info(a, b) && keeps_open_blocks(a, b)
                        &&& b.content@.len() == a.content@.len() + 1 && b.content@.drop_last() == a.content@
                        &&& b.content@.last() matches ContentPart::ToolCall(c1) && call_copy(c, c1)
                        &&& b.tool_calls@.len() == a.tool_calls@.len() + 1 && b.tool_calls@.drop_last()
                            == a.tool_calls@ && call_copy(c, b.tool_calls@.last())
                        &&& ev == StepEvent::Emit(TextStreamPart::ToolCall { tool_call: c })
                    },
                    Err(e) => keeps_all(a, b) && ev == StepEvent::Fail {
                        error: e,
                        reported: text_field_object("message"@, error_text(e)),
                    },
                }
            },
        StreamPart::ToolResult(tr) => exists|r: TypedToolResult<Value, Value>|
            {
                &&& #[trigger] step_tool_result(tr, tools, r)
                &&& keeps_step_info(a, b) && keeps_open_blocks(a, b) && b.tool_calls@ == a.tool_calls@
                &&& b.content@.len() == a.content@.len() + 1 && b.content@.drop_last() == a.content@
                &&& b.content@.last() matches ContentPart::ToolResult(r1) && result_copy(r, r1)
                &&& ev == StepEvent::Emit(TextStreamPart::ToolResult { tool_result: r })
            },
    }
}

impl SingleStepState {
    /// Takes in a part of the provider's stream: gathers text, reasoning,
    /// sources, tool calls and results into the step's content, notes how
    /// the step finished, and says what to pass on, or that the step failed.
    pub fn on_part(&mut self, part: StreamPart, tools: Option<&ToolSet>, include_raw: bool) -> (ev: StepEvent)
        ensures
            step_transition(*old(self), part, tools, include_raw, *final(self), ev),
    {
        match part {
            StreamPart::TextStart { id, provider_metadata } => StepEvent::Emit(TextStreamPart::TextStart { id, provider_metadata }),
            StreamPart::TextDelta { id, delta, provider_metadata } => {
                push_str(&mut self.current_text, delta.as_str());
                StepEvent::Emit(TextStreamPart::TextDelta { id, provider_metadata, text: delta })
            },
            StreamPart::TextEnd { id, provider_metadata } => {
                self.flush_text();
                StepEvent::Emit(TextStreamPart::TextEnd { id, provider_metadata })
            },
            StreamPart::ReasoningStart { id, provider_metadata } => StepEvent::Emit(
                TextStreamPart::ReasoningStart { id, provider_metadata },
            ),
            StreamPart::ReasoningDelta { id, delta, provider_metadata } => {
                push_str(&mut self.current_reasoning, delta.as_str());
                StepEvent::Emit(TextStreamPart::ReasoningDelta { id, provider_metadata, text: delta })
            },
            StreamPart::ReasoningEnd { id, provider_metadata } => {
                self.flush_reasoning();
                StepEvent::Emit(TextStreamPart::ReasoningEnd { id, provider_metadata })
            },
            StreamPart::ToolInputStart { id, tool_name, provider_metadata, provider_executed } => StepEvent::Emit(
                TextStreamPart::ToolInputStart {
                    id,
                    tool_name,
                    provider_metadata,
                    provider_executed,
                    dynamic: None,
                    title: None,
                },
            ),
            StreamPart::ToolInputDelta { id, delta, provider_metadata } => StepEvent::Emit(
                TextStreamPart::ToolInputDelta { id, delta, provider_metadata },
            ),
            StreamPart::ToolInputEnd { id, provider_metadata } => StepEvent::Emit(
                TextStreamPart::ToolInputEnd { id, provider_metadata },
            ),
            StreamPart::Source(source) => {
                let ghost before = self.content@;
                self.content.push(ContentPart::Source(SourceOutput::new(copy_source(&source))));
                assert(self.content@.drop_last() =~= before);
                StepEvent::Emit(TextStreamPart::Source { source: SourceOutput::new(source) })
            },
            StreamPart::File(file) => StepEvent::Emit(TextStreamPart::File { file: stream_file(file) }),
            StreamPart::StreamStart { warnings } => {
                if warnings.len() == 0 {
                    self.warnings = None;
                } else {
                    self.warnings = Some(copy_warnings(&warnings));
                }
                let body = match &self.request_body {
                    Some(b) => Some(b.clone()),
                    None => None,
                };
                StepEvent::Emit(TextStreamPart::StartStep { request: RequestMetadata { body }, warnings })
            },
            StreamPart::Finish { usage, finish_reason, provider_metadata } => {
                self.flush_text();
                let ghost mid = self.content@;
                self.flush_reasoning();
                self.usage = usage;
                self.finish_reason = finish_reason;
                self.provider_metadata = copy_metadata(&provider_metadata);
                StepEvent::Emit(
                    TextStreamPart::FinishStep {
                        response: LanguageModelResponseMetadata { id: None, timestamp: None, model_id: None },
                        usage,
                        finish_reason,
                        provider_metadata,
                    },
                )
            },
            StreamPart::Raw { raw_value } => {
                if include_raw {
                    StepEvent::Emit(TextStreamPart::Raw { raw_value })
                } else {
                    StepEvent::Skip
                }
            },
            StreamPart::Error { error } => {
                let mut message = "Stream error: ".to_owned();
                let text = json_to_string(&error);
                push_str(&mut message, text.as_str());
                proof {
                    reveal_strlit("Stream error: ");
                }
                StepEvent::Fail { error: AISDKError::ModelError { message }, reported: error }
            },
            StreamPart::ResponseMetadata(_) => StepEvent::Skip,
            StreamPart::ToolCall(tc) => {
                let parsed = match tools {
                    Some(ts) => parse_tool_call(&tc, ts),
                    None => parse_provider_executed_dynamic_tool_call(&tc),
                };
                let ghost p = parsed;
                assert(step_parse_outcome(tc, tools, p));
                match parsed {
                    Ok(c) => {
                        let ghost before = self.content@;
                        let ghost calls_before = self.tool_calls@;
                        self.content.push(ContentPart::ToolCall(copy_call(&c)));
                        self.tool_calls.push(copy_call(&c));
                        assert(self.content@.drop_last() =~= before);
                        assert(self.tool_calls@.drop_last() =~= calls_before);
                        StepEvent::Emit(TextStreamPart::ToolCall { tool_call: c })
                    },
                    Err(e) => {
                        let text = e.to_string();
                        proof {
                            reveal_strlit("message");
                        }
                        let reported = json_text_field("message", text.as_str());
                        StepEvent::Fail { error: e, reported }
                    },
                }
            },
            StreamPart::ToolResult(tr) => {
                let dynamic = match tools {
                    Some(ts) => ts.get(tr.tool_name.as_str()).is_none(),
                    None => true,
                };
                let r = if dynamic {
                    let mut d = DynamicToolResult::new(tr.tool_call_id.as_str(), tr.tool_name.as_str(), null_json(), tr.result);
                    match tr.provider_executed {
                        Some(x) => {
                            d = d.with_provider_executed(x);
                        },
                        None => {},
                    }
                    TypedToolResult::Dynamic(d)
                } else {
                    let mut x = StaticToolResult::new(tr.tool_call_id.as_str(), tr.tool_name.as_str(), null_json(), tr.result);
                    match tr.provider_executed {
                        Some(e) => {
                            x = x.with_provider_executed(e);
                        },
                        None => {},
                    }
                    TypedToolResult::Static(x)
                };
                let ghost before = self.content@;
                self.content.push(ContentPart::ToolResult(copy_result(&r)));
                assert(self.content@.drop_last() =~= before);
                assert(step_tool_result(tr, tools, r));
                StepEvent::Emit(TextStreamPart::ToolResult { tool_result: r })
            },
        }
    }
}

/// The content of a step with the outputs of the tools that the
/// application ran added at its end.
pub fn content_with_outputs(content: Vec<ContentPart<Value, Value>>, outputs: Vec<ToolOutput<Value, Value>>) -> (r: Vec<
    ContentPart<Value, Value>,
>)
    ensures
        r@ == content@ + outputs@.map_values(|o: ToolOutput<Value, Value>| output_part(o)),
{
    let ghost start = content@;
    let ghost outs = outputs@;
    let mut r = content;
    for output in it: outputs
        invariant
            it.seq() == outs,
            r@ == start + outs.take(it.index() as int).map_values(|o: ToolOutput<Value, Value>| output_part(o)),
    {
        let ghost i = it.index() as int;
        assert(outs.take(i + 1) =~= outs.take(i).push(output));
        let p = match output {
            ToolOutput::Result(x) => ContentPart::ToolResult(x),
            ToolOutput::Error(e) => ContentPart::ToolError(e),
        };
        r.push(p);
        assert(r@ =~= start + outs.take(i + 1).map_values(|o: ToolOutput<Value, Value>| output_part(o)));
    }
    assert(outs.take(outs.len() as int) =~= outs);
    r
}

} // verus!

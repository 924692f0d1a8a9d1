use super::as_content::{call_copy, copy_call};
use super::content::{ContentPart, GeneratedFile, ReasoningOutput, SourceOutput, TextOutput};
use super::parse_tool_call::same_metadata;
use super::prepare_tools::same_text;
use super::response::ResponseMessage;
use super::step_result::{
    reasoning_of, reasoning_text_of, sources_of, text_of, tool_calls_of, tool_results_of, RequestMetadata,
    StepResponseMetadata, StepResult,
};
use super::tool_types::{
    DynamicToolCall, DynamicToolError, DynamicToolResult, StaticToolCall, StaticToolError, StaticToolResult,
    TypedToolCall, TypedToolError, TypedToolResult,
};
use crate::provider::{
    LanguageModelCallWarning, LanguageModelFinishReason, LanguageModelSource, LanguageModelUsage, ProviderMetadata,
};
use crate::stream_text::single_step::{
    copy_metadata, copy_result, copy_source, copy_text, copy_warnings, result_copy, source_copy, warnings_copy,
};
use serde_json::Value;
use vstd::prelude::*;

verus! {

/// What is known of the response of a generation.
#[derive(Debug, Clone, PartialEq)]
pub struct ResponseMetadata {
    /// The messages that the generation added to the conversation.
    pub messages: Vec<ResponseMessage>,
    pub body: Option<Value>,
    pub id: Option<String>,
    pub model_id: Option<String>,
    pub timestamp: Option<i64>,
}

impl ResponseMetadata {
    /// Metadata with the given messages and nothing else known.
    pub fn new(messages: Vec<ResponseMessage>) -> (m: Self)
        ensures
            m.messages == messages,
            m.body is None,
            m.id is None,
            m.model_id is None,
            m.timestamp is None,
    {
        ResponseMetadata { messages, body: None, id: None, model_id: None, timestamp: None }
    }

    /// Metadata with the given messages and what a step's response said of
    /// itself; its body is not kept.
    pub fn from_step_metadata(messages: Vec<ResponseMessage>, metadata: StepResponseMetadata) -> (m: Self)
        ensures
            m.messages == messages,
            m.body is None,
            m.id == metadata.id,
            m.model_id == metadata.model_id,
            m.timestamp == metadata.timestamp,
    {
        ResponseMetadata { messages, body: None, id: metadata.id, model_id: metadata.model_id, timestamp: metadata.timestamp }
    }

    pub fn with_body(self, body: Value) -> (m: Self)
        ensures
            m == (ResponseMetadata { body: Some(body), ..self }),
    {
        ResponseMetadata { body: Some(body), ..self }
    }

    pub fn with_id(self, id: String) -> (m: Self)
        ensures
            m == (ResponseMetadata { id: Some(id), ..self }),
    {
        ResponseMetadata { id: Some(id), ..self }
    }

    pub fn with_model_id(self, model_id: String) -> (m: Self)
        ensures
            m == (ResponseMetadata { model_id: Some(model_id), ..self }),
    {
        ResponseMetadata { model_id: Some(model_id), ..self }
    }

    pub fn with_timestamp(self, timestamp: i64) -> (m: Self)
        ensures
            m == (ResponseMetadata { timestamp: Some(timestamp), ..self }),
    {
        ResponseMetadata { timestamp: Some(timestamp), ..self }
    }
}

/// The result of a generation: what its last step produced, the total
/// usage, and every step.
#[derive(Debug, Clone, PartialEq)]
pub struct GenerateTextResult<INPUT = Value, OUTPUT = Value> {
    pub content: Vec<ContentPart<INPUT, OUTPUT>>,
    pub text: String,
    pub reasoning: Vec<ReasoningOutput>,
    pub reasoning_text: Option<String>,
    pub files: Vec<GeneratedFile>,
    pub sources: Vec<LanguageModelSource>,
    pub tool_calls: Vec<TypedToolCall<INPUT>>,
    pub static_tool_calls: Vec<StaticToolCall<INPUT>>,
    pub dynamic_tool_calls: Vec<DynamicToolCall>,
    pub tool_results: Vec<TypedToolResult<INPUT, OUTPUT>>,
    pub static_tool_results: Vec<StaticToolResult<INPUT, OUTPUT>>,
    pub dynamic_tool_results: Vec<DynamicToolResult>,
    pub finish_reason: LanguageModelFinishReason,
    pub usage: LanguageModelUsage,
    pub total_usage: LanguageModelUsage,
    pub warnings: Option<Vec<LanguageModelCallWarning>>,
    pub request: RequestMetadata,
    pub response: ResponseMetadata,
    pub provider_metadata: Option<ProviderMetadata>,
    pub steps: Vec<StepResult<INPUT, OUTPUT>>,
    pub output: OUTPUT,
}

impl<INPUT, OUTPUT> GenerateTextResult<INPUT, OUTPUT> {
    /// A result with every field given.
    pub fn new(
        content: Vec<ContentPart<INPUT, OUTPUT>>,
        text: String,
        reasoning: Vec<ReasoningOutput>,
        reasoning_text: Option<String>,
        files: Vec<GeneratedFile>,
        sources: Vec<LanguageModelSource>,
        tool_calls: Vec<TypedToolCall<INPUT>>,
        static_tool_calls: Vec<StaticToolCall<INPUT>>,
        dynamic_tool_calls: Vec<DynamicToolCall>,
        tool_results: Vec<TypedToolResult<INPUT, OUTPUT>>,
        static_tool_results: Vec<StaticToolResult<INPUT, OUTPUT>>,
        dynamic_tool_results: Vec<DynamicToolResult>,
        finish_reason: LanguageModelFinishReason,
        usage: LanguageModelUsage,
        total_usage: LanguageModelUsage,
        warnings: Option<Vec<LanguageModelCallWarning>>,
        request: RequestMetadata,
        response: ResponseMetadata,
        provider_metadata: Option<ProviderMetadata>,
        steps: Vec<StepResult<INPUT, OUTPUT>>,
        output: OUTPUT,
    ) -> (r: Self)
        ensures
            r == (GenerateTextResult {
                content,
                text,
                reasoning,
                reasoning_text,
                files,
                sources,
                tool_calls,
                static_tool_calls,
                dynamic_tool_calls,
                tool_results,
                static_tool_results,
                dynamic_tool_results,
                finish_reason,
                usage,
                total_usage,
                warnings,
                request,
                response,
                provider_metadata,
                steps,
                output,
            }),
    {
        GenerateTextResult {
            content,
            text,
            reasoning,
            reasoning_text,
            files,
            sources,
            tool_calls,
            static_tool_calls,
            dynamic_tool_calls,
            tool_results,
            static_tool_results,
            dynamic_tool_results,
            finish_reason,
            usage,
            total_usage,
            warnings,
            request,
            response,
            provider_metadata,
            steps,
            output,
        }
    }
}

/// `b` is a copy of the reasoning `a`.
pub open spec fn reasoning_copy(a: ReasoningOutput, b: ReasoningOutput) -> bool {
    a.text@ == b.text@ && same_metadata(a.provider_metadata, b.provider_metadata)
}

/// `b` is a copy of the tool error `a`.
pub open spec fn error_copy(a: TypedToolError<Value>, b: TypedToolError<Value>) -> bool {
    match (a, b) {
        (TypedToolError::Static(x), TypedToolError::Static(y)) => x.error_type@ == y.error_type@ && x.tool_call_id@
            == y.tool_call_id@ && x.tool_name@ == y.tool_name@ && x.input == y.input && x.error == y.error
            && x.provider_executed == y.provider_executed && x.dynamic == y.dynamic,
        (TypedToolError::Dynamic(x), TypedToolError::Dynamic(y)) => x.error_type@ == y.error_type@ && x.tool_call_id@
            == y.tool_call_id@ && x.tool_name@ == y.tool_name@ && x.input == y.input && x.error == y.error
            && x.provider_executed == y.provider_executed && x.dynamic == y.dynamic,
        _ => false,
    }
}

/// `b` is a copy of the content part `a`.
pub open spec fn part_copy(a: ContentPart<Value, Value>, b: ContentPart<Value, Value>) -> bool {
    match (a, b) {
        (ContentPart::Text(x), ContentPart::Text(y)) => x.text@ == y.text@,
        (ContentPart::Reasoning(x), ContentPart::Reasoning(y)) => reasoning_copy(x, y),
        (ContentPart::Source(x), ContentPart::Source(y)) => source_copy(x.source, y.source),
        (ContentPart::ToolCall(x), ContentPart::ToolCall(y)) => call_copy(x, y),
        (ContentPart::ToolResult(x), ContentPart::ToolResult(y)) => result_copy(x, y),
        (ContentPart::ToolError(x), ContentPart::ToolError(y)) => error_copy(x, y),
        _ => false,
    }
}

fn copy_error(e: &TypedToolError<Value>) -> (c: TypedToolError<Value>)
    ensures
        error_copy(*e, c),
{
    match e {
        TypedToolError::Static(x) => TypedToolError::Static(
            StaticToolError {
                error_type: x.error_type.clone(),
                tool_call_id: x.tool_call_id.clone(),
                tool_name: x.tool_name.clone(),
                input: x.input.clone(),
                error: x.error.clone(),
                provider_executed: x.provider_executed,
                dynamic: x.dynamic,
            },
        ),
        TypedToolError::Dynamic(x) => TypedToolError::Dynamic(
            DynamicToolError {
                error_type: x.error_type.clone(),
                tool_call_id: x.tool_call_id.clone(),
                tool_name: x.tool_name.clone(),
                input: x.input.clone(),
                error: x.error.clone(),
                provider_executed: x.provider_executed,
                dynamic: x.dynamic,
            },
        ),
    }
}

fn copy_reasoning(r: &ReasoningOutput) -> (c: ReasoningOutput)
    ensures
        reasoning_copy(*r, c),
{
    ReasoningOutput { text: r.text.clone(), provider_metadata: copy_metadata(&r.provider_metadata) }
}

fn copy_part(p: &ContentPart<Value, Value>) -> (c: ContentPart<Value, Value>)
    ensures
        part_copy(*p, c),
{
    match p {
        ContentPart::Text(t) => ContentPart::Text(TextOutput { text: t.text.clone() }),
        ContentPart::Reasoning(r) => ContentPart::Reasoning(copy_reasoning(r)),
        ContentPart::Source(s) => ContentPart::Source(SourceOutput { source: copy_source(&s.source) }),
        ContentPart::ToolCall(c) => ContentPart::ToolCall(copy_call(c)),
        ContentPart::ToolResult(r) => ContentPart::ToolResult(copy_result(r)),
        ContentPart::ToolError(e) => ContentPart::ToolError(copy_error(e)),
    }
}

/// The static calls among the calls, in order.
pub open spec fn static_calls_of(calls: Seq<TypedToolCall<Value>>) -> Seq<StaticToolCall<Value>> {
    calls.filter_map(
        |c: TypedToolCall<Value>|
            match c {
                TypedToolCall::Static(s) => Some(s),
                _ => None,
            },
    )
}

/// The dynamic calls among the calls, in order.
pub open spec fn dynamic_calls_of(calls: Seq<TypedToolCall<Value>>) -> Seq<DynamicToolCall> {
    calls.filter_map(
        |c: TypedToolCall<Value>|
            match c {
                TypedToolCall::Dynamic(d) => Some(d),
                _ => None,
            },
    )
}

/// The static results among the results, in order.
pub open spec fn static_results_of(rs: Seq<TypedToolResult<Value, Value>>) -> Seq<StaticToolResult<Value, Value>> {
    rs.filter_map(
        |r: TypedToolResult<Value, Value>|
            match r {
                TypedToolResult::Static(s) => Some(s),
                _ => None,
            },
    )
}

/// The dynamic results among the results, in order.
pub open spec fn dynamic_results_of(rs: Seq<TypedToolResult<Value, Value>>) -> Seq<DynamicToolResult> {
    rs.filter_map(
        |r: TypedToolResult<Value, Value>|
            match r {
                TypedToolResult::Dynamic(d) => Some(d),
                _ => None,
            },
    )
}

/// `b` is a copy of `a`, element by element, under `copy`.
pub open spec fn all_copied<T>(a: Seq<T>, b: Seq<T>, copy: spec_fn(T, T) -> bool) -> bool {
    a.len() == b.len() && forall|i: int| 0 <= i < a.len() ==> #[trigger] copy(a[i], b[i])
}

/// `b` is a copy of the request metadata `a`.
pub open spec fn request_copy(a: RequestMetadata, b: RequestMetadata) -> bool {
    b.body == a.body
}

impl GenerateTextResult<Value, Value> {
    /// The result of a generation from its steps, the total usage and the
    /// output: what the last step produced, split by kind, with the tool
    /// calls and results also split into static and dynamic ones; the
    /// response carries the messages generated during the call, as given,
    /// and no body.
    pub fn from_steps(
        steps: Vec<StepResult<Value, Value>>,
        total_usage: LanguageModelUsage,
        output: Value,
        response_messages: Vec<ResponseMessage>,
    ) -> (r: Self)
        requires
            steps@.len() > 0,
        ensures
            ({
                let last = steps@.last();
                &&& all_copied(last.content@, r.content@, |a, b| part_copy(a, b))
                &&& r.text@ == text_of(last.content@)
                &&& all_copied(reasoning_of(last.content@), r.reasoning@, |a, b| reasoning_copy(a, b))
                &&& if reasoning_of(last.content@).len() == 0 {
                    r.reasoning_text is None
                } else {
                    r.reasoning_text matches Some(t) && t@ == reasoning_text_of(reasoning_of(last.content@))
                }
                &&& r.files@.len() == 0
                &&& all_copied(sources_of(last.content@), r.sources@, |a, b| source_copy(a, b))
                &&& all_copied(tool_calls_of(last.content@), r.tool_calls@, |a, b| call_copy(a, b))
                &&& all_copied(
                    static_calls_of(tool_calls_of(last.content@)),
                    r.static_tool_calls@,
                    |a: StaticToolCall<Value>, b: StaticToolCall<Value>|
                        call_copy(TypedToolCall::Static(a), TypedToolCall::Static(b)),
                )
                &&& all_copied(
                    dynamic_calls_of(tool_calls_of(last.content@)),
                    r.dynamic_tool_calls@,
                    |a: DynamicToolCall, b: DynamicToolCall| call_copy(TypedToolCall::Dynamic(a), TypedToolCall::Dynamic(b)),
                )
                &&& all_copied(tool_results_of(last.content@), r.tool_results@, |a, b| result_copy(a, b))
                &&& all_copied(
                    static_results_of(tool_results_of(last.content@)),
                    r.static_tool_results@,
                    |a: StaticToolResult<Value, Value>, b: StaticToolResult<Value, Value>|
                        result_copy(TypedToolResult::Static(a), TypedToolResult::Static(b)),
                )
                &&& all_copied(
                    dynamic_results_of(tool_results_of(last.content@)),
                    r.dynamic_tool_results@,
                    |a: DynamicToolResult, b: DynamicToolResult|
                        result_copy(TypedToolResult::Dynamic(a), TypedToolResult::Dynamic(b)),
                )
                &&& r.finish_reason == last.finish_reason
                &&& r.usage == last.usage
                &&& r.total_usage == total_usage
                &&& match last.warnings {
                    Some(w) => r.warnings matches Some(x) && warnings_copy(w@, x@),
                    None => r.warnings is None,
                }
                &&& request_copy(last.request, r.request)
                &&& r.response.messages == response_messages && r.response.body is None
                &&& same_text(r.response.id, last.response.id) && same_text(r.response.model_id, last.response.model_id)
                &&& r.response.timestamp == last.response.timestamp
                &&& same_metadata(last.provider_metadata, r.provider_metadata)
                &&& r.steps == steps
                &&& r.output == output
            }),
    {
        let k = steps.len() - 1;
        let last = &steps[k];
        let ghost lc = last.content@;
        let mut content: Vec<ContentPart<Value, Value>> = Vec::new();
        let n = last.content.len();
        let mut i: usize = 0;
        while i < n
            invariant
                n == lc.len(),
                lc == last.content@,
                i <= n,
                content@.len() == i,
                forall|j: int| 0 <= j < i ==> #[trigger] part_copy(lc[j], content@[j]),
            decreases n - i,
        {
            content.push(copy_part(&last.content[i]));
            i = i + 1;
        }
        let text = last.text();
        let reasoning_refs = last.reasoning();
        let ghost rs = reasoning_refs@.map_values(|x: &ReasoningOutput| *x);
        let mut reasoning: Vec<ReasoningOutput> = Vec::new();
        let mut i: usize = 0;
        while i < reasoning_refs.len()
            invariant
                rs == reasoning_refs@.map_values(|x: &ReasoningOutput| *x),
                i <= reasoning_refs@.len(),
                reasoning@.len() == i,
                forall|j: int| 0 <= j < i ==> #[trigger] reasoning_copy(rs[j], reasoning@[j]),
            decreases reasoning_refs@.len() - i,
        {
            reasoning.push(copy_reasoning(reasoning_refs[i]));
            i = i + 1;
        }
        let reasoning_text = last.reasoning_text();
        let source_refs = last.sources();
        let ghost ss = source_refs@.map_values(|x: &LanguageModelSource| *x);
        let mut sources: Vec<LanguageModelSource> = Vec::new();
        let mut i: usize = 0;
        while i < source_refs.len()
            invariant
                ss == source_refs@.map_values(|x: &LanguageModelSource| *x),
                i <= source_refs@.len(),
                sources@.len() == i,
                forall|j: int| 0 <= j < i ==> #[trigger] source_copy(ss[j], sources@[j]),
            decreases source_refs@.len() - i,
        {
            sources.push(copy_source(source_refs[i]));
            i = i + 1;
        }
        let call_refs = last.tool_calls();
        let ghost cs = call_refs@.map_values(|x: &TypedToolCall<Value>| *x);
        let ghost pick_static = |c: TypedToolCall<Value>|
            match c {
                TypedToolCall::Static(s) => Some(s),
                _ => None,
            };
        let ghost pick_dynamic = |c: TypedToolCall<Value>|
            match c {
                TypedToolCall::Dynamic(d) => Some(d),
                _ => None,
            };
        let mut tool_calls: Vec<TypedToolCall<Value>> = Vec::new();
        let mut static_tool_calls: Vec<StaticToolCall<Value>> = Vec::new();
        let mut dynamic_tool_calls: Vec<DynamicToolCall> = Vec::new();
        let mut i: usize = 0;
        while i < call_refs.len()
            invariant
                cs == call_refs@.map_values(|x: &TypedToolCall<Value>| *x),
                pick_static == (|c: TypedToolCall<Value>|
                    match c {
                        TypedToolCall::Static(s) => Some(s),
                        _ => None,
                    }),
                pick_dynamic == (|c: TypedToolCall<Value>|
                    match c {
                        TypedToolCall::Dynamic(d) => Some(d),
                        _ => None,
                    }),
                i <= call_refs@.len(),
                tool_calls@.len() == i,
                forall|j: int| 0 <= j < i ==> #[trigger] call_copy(cs[j], tool_calls@[j]),
                all_copied(
                    cs.take(i as int).filter_map(pick_static),
                    static_tool_calls@,
                    |a: StaticToolCall<Value>, b: StaticToolCall<Value>|
                        call_copy(TypedToolCall::Static(a), TypedToolCall::Static(b)),
                ),
                all_copied(
                    cs.take(i as int).filter_map(pick_dynamic),
                    dynamic_tool_calls@,
                    |a: DynamicToolCall, b: DynamicToolCall| call_copy(TypedToolCall::Dynamic(a), TypedToolCall::Dynamic(b)),
                ),
            decreases call_refs@.len() - i,
        {
            let c = call_refs[i];
            assert(cs.take(i + 1).drop_last() =~= cs.take(i as int));
            assert(cs.take(i + 1).last() == *c);
            tool_calls.push(copy_call(c));
            match copy_call(c) {
                TypedToolCall::Static(s) => {
                    static_tool_calls.push(s);
                },
                TypedToolCall::Dynamic(d) => {
                    dynamic_tool_calls.push(d);
                },
            }
            i = i + 1;
        }
        assert(cs.take(cs.len() as int) =~= cs);
        let result_refs = last.tool_results();
        let ghost trs = result_refs@.map_values(|x: &TypedToolResult<Value, Value>| *x);
        let ghost pick_static_r = |r: TypedToolResult<Value, Value>|
            match r {
                TypedToolResult::Static(s) => Some(s),
                _ => None,
            };
        let ghost pick_dynamic_r = |r: TypedToolResult<Value, Value>|
            match r {
                TypedToolResult::Dynamic(d) => Some(d),
                _ => None,
            };
        let mut tool_results: Vec<TypedToolResult<Value, Value>> = Vec::new();
        let mut static_tool_results: Vec<StaticToolResult<Value, Value>> = Vec::new();
        let mut dynamic_tool_results: Vec<DynamicToolResult> = Vec::new();
        let mut i: usize = 0;
        while i < result_refs.len()
            invariant
                trs == result_refs@.map_values(|x: &TypedToolResult<Value, Value>| *x),
                pick_static_r == (|r: TypedToolResult<Value, Value>|
                    match r {
                        TypedToolResult::Static(s) => Some(s),
                        _ => None,
                    }),
                pick_dynamic_r == (|r: TypedToolResult<Value, Value>|
                    match r {
                        TypedToolResult::Dynamic(d) => Some(d),
                        _ => None,
                    }),
                i <= result_refs@.len(),
                tool_results@.len() == i,
                forall|j: int| 0 <= j < i ==> #[trigger] result_copy(trs[j], tool_results@[j]),
                all_copied(
                    trs.take(i as int).filter_map(pick_static_r),
                    static_tool_results@,
                    |a: StaticToolResult<Value, Value>, b: StaticToolResult<Value, Value>|
                        result_copy(TypedToolResult::Static(a), TypedToolResult::Static(b)),
                ),
                all_copied(
                    trs.take(i as int).filter_map(pick_dynamic_r),
                    dynamic_tool_results@,
                    |a: DynamicToolResult, b: DynamicToolResult|
                        result_copy(TypedToolResult::Dynamic(a), TypedToolResult::Dynamic(b)),
                ),
            decreases result_refs@.len() - i,
        {
            let t = result_refs[i];
            assert(trs.take(i + 1).drop_last() =~= trs.take(i as int));
            assert(trs.take(i + 1).last() == *t);
            tool_results.push(copy_result(t));
            match copy_result(t) {
                TypedToolResult::Static(s) => {
                    static_tool_results.push(s);
                },
                TypedToolResult::Dynamic(d) => {
                    dynamic_tool_results.push(d);
                },
            }
            i = i + 1;
        }
        assert(trs.take(trs.len() as int) =~= trs);
        let warnings = match &last.warnings {
            Some(w) => Some(copy_warnings(w)),
            None => None,
        };
        let request = RequestMetadata {
            body: match &last.request.body {
                Some(b) => Some(b.clone()),
                None => None,
            },
        };
        let response = ResponseMetadata {
            messages: response_messages,
            body: None,
            id: copy_text(&last.response.id),
            model_id: copy_text(&last.response.model_id),
            timestamp: last.response.timestamp,
        };
        let finish_reason = last.finish_reason;
        let usage = last.usage;
        let provider_metadata = copy_metadata(&last.provider_metadata);
        GenerateTextResult {
            content,
            text,
            reasoning,
            reasoning_text,
            files: Vec::new(),
            sources,
            tool_calls,
            static_tool_calls,
            dynamic_tool_calls,
            tool_results,
            static_tool_results,
            dynamic_tool_results,
            finish_reason,
            usage,
            total_usage,
            warnings,
            request,
            response,
            provider_metadata,
            steps,
            output,
        }
    }
}

} // verus!

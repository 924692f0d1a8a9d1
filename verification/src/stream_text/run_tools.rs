use super::{i64_text, signed_decimal, stream_file, SingleRequestTextStreamPart};
use crate::error::{error_text, AISDKError};
use crate::generate_text::content::{SourceOutput, ToolApprovalRequestOutput};
use crate::generate_text::parse_tool_call::{
    dynamic_call_of, parse_outcome, parse_provider_executed_dynamic_tool_call, parse_tool_call, parsed_input,
};
use crate::generate_text::tool_types::{
    call_id_of, DynamicToolError, DynamicToolResult, ToolOutput, TypedToolCall, TypedToolError, TypedToolResult,
};
use crate::json::{json_parse, json_parse_error, json_text_field, null_json, text_field_object};
use crate::prompt::data_base64;
use crate::provider::{
    LanguageModelFinishReason, LanguageModelToolCall, LanguageModelToolResult, LanguageModelUsage, ProviderMetadata,
    StreamPart,
};
use crate::tool::{str_eq, ToolSet};
use serde_json::Value;
use vstd::prelude::*;

verus! {

/// How a provider's stream part that is passed on directly reads in the
/// stream of a request; tool calls, tool results and the finish part are
/// not passed on directly.
pub open spec fn forwarded_of(p: StreamPart, r: Option<SingleRequestTextStreamPart<Value, Value>>) -> bool {
    match p {
        StreamPart::TextStart { id, provider_metadata } => r == Some(
            SingleRequestTextStreamPart::<Value, Value>::TextStart { id, provider_metadata },
        ),
        StreamPart::TextDelta { id, delta, provider_metadata } => r == Some(
            SingleRequestTextStreamPart::<Value, Value>::TextDelta { id, provider_metadata, delta },
        ),
        StreamPart::TextEnd { id, provider_metadata } => r == Some(
            SingleRequestTextStreamPart::<Value, Value>::TextEnd { id, provider_metadata },
        ),
        StreamPart::ReasoningStart { id, provider_metadata } => r == Some(
            SingleRequestTextStreamPart::<Value, Value>::ReasoningStart { id, provider_metadata },
        ),
        StreamPart::ReasoningDelta { id, delta, provider_metadata } => r == Some(
            SingleRequestTextStreamPart::<Value, Value>::ReasoningDelta { id, provider_metadata, delta },
        ),
        StreamPart::ReasoningEnd { id, provider_metadata } => r == Some(
            SingleRequestTextStreamPart::<Value, Value>::ReasoningEnd { id, provider_metadata },
        ),
        StreamPart::ToolInputStart { id, tool_name, provider_metadata, provider_executed } => r == Some(
            SingleRequestTextStreamPart::<Value, Value>::ToolInputStart {
                id,
                tool_name,
                provider_metadata,
                dynamic: provider_executed,
                title: None,
            },
        ),
        StreamPart::ToolInputDelta { id, delta, provider_metadata } => r == Some(
            SingleRequestTextStreamPart::<Value, Value>::ToolInputDelta { id, delta, provider_metadata },
        ),
        StreamPart::ToolInputEnd { id, provider_metadata } => r == Some(
            SingleRequestTextStreamPart::<Value, Value>::ToolInputEnd { id, provider_metadata },
        ),
        StreamPart::Source(source) => r == Some(
            SingleRequestTextStreamPart::<Value, Value>::Source { source: SourceOutput { source } },
        ),
        StreamPart::ResponseMetadata(m) => r matches Some(
            SingleRequestTextStreamPart::ResponseMetadata { id, timestamp, model_id },
        ) && id == m.id && model_id == m.model_id && match (m.timestamp, timestamp) {
            (Some(t), Some(s)) => s@ == signed_decimal(t as int),
            (None, None) => true,
            _ => false,
        },
        StreamPart::Error { error } => r == Some(SingleRequestTextStreamPart::<Value, Value>::Error { error }),
        StreamPart::Raw { raw_value } => r == Some(SingleRequestTextStreamPart::<Value, Value>::Raw { raw_value }),
        StreamPart::StreamStart { warnings } => r == Some(
            SingleRequestTextStreamPart::<Value, Value>::StreamStart { warnings },
        ),
        StreamPart::File(file) => r matches Some(SingleRequestTextStreamPart::File { file: f }) && f.base64@
            == data_base64(file.data) && f.media_type == file.media_type && f.name is None,
        StreamPart::ToolCall(_) => r is None,
        StreamPart::ToolResult(_) => r is None,
        StreamPart::Finish { .. } => r is None,
    }
}

/// The text and reasoning parts of a provider's stream go on as the same
/// kind of part, with the same id, the same delta and the same provider
/// metadata; only tool calls, tool results and the finish part are held
/// back for the run of the tools.
pub proof fn lemma_text_and_reasoning_forwarded(p: StreamPart, r: Option<SingleRequestTextStreamPart<Value, Value>>)
    requires
        forwarded_of(p, r),
    ensures
        p matches StreamPart::TextStart { id, provider_metadata } ==> (
        r matches Some(SingleRequestTextStreamPart::TextStart { id: i, provider_metadata: m }) && i == id && m
            == provider_metadata),
        p matches StreamPart::TextDelta { id, delta, provider_metadata } ==> (
        r matches Some(SingleRequestTextStreamPart::TextDelta { id: i, delta: d, provider_metadata: m }) && i == id
            && d == delta && m == provider_metadata),
        p matches StreamPart::TextEnd { id, provider_metadata } ==> (
        r matches Some(SingleRequestTextStreamPart::TextEnd { id: i, provider_metadata: m }) && i == id && m
            == provider_metadata),
        p matches StreamPart::ReasoningStart { id, provider_metadata } ==> (
        r matches Some(SingleRequestTextStreamPart::ReasoningStart { id: i, provider_metadata: m }) && i == id && m
            == provider_metadata),
        p matches StreamPart::ReasoningDelta { id, delta, provider_metadata } ==> (
        r matches Some(SingleRequestTextStreamPart::ReasoningDelta { id: i, delta: d, provider_metadata: m }) && i
            == id && d == delta && m == provider_metadata),
        p matches StreamPart::ReasoningEnd { id, provider_metadata } ==> (
        r matches Some(SingleRequestTextStreamPart::ReasoningEnd { id: i, provider_metadata: m }) && i == id && m
            == provider_metadata),
        r is None <==> (p is ToolCall || p is ToolResult || p is Finish),
{
}

/// Passes a provider's stream part on to the stream of a request, for the
/// parts that go on directly; gives nothing for tool calls, tool results
/// and the finish part, which the run of the tools handles.
pub fn forwarded_part(part: StreamPart) -> (r: Option<SingleRequestTextStreamPart<Value, Value>>)
    ensures
        forwarded_of(part, r),
{
    match part {
        StreamPart::TextStart { id, provider_metadata } => Some(SingleRequestTextStreamPart::TextStart { id, provider_metadata }),
        StreamPart::TextDelta { id, delta, provider_metadata } => Some(
            SingleRequestTextStreamPart::TextDelta { id, provider_metadata, delta },
        ),
        StreamPart::TextEnd { id, provider_metadata } => Some(SingleRequestTextStreamPart::TextEnd { id, provider_metadata }),
        StreamPart::ReasoningStart { id, provider_metadata } => Some(
            SingleRequestTextStreamPart::ReasoningStart { id, provider_metadata },
        ),
        StreamPart::ReasoningDelta { id, delta, provider_metadata } => Some(
            SingleRequestTextStreamPart::ReasoningDelta { id, provider_metadata, delta },
        ),
        StreamPart::ReasoningEnd { id, provider_metadata } => Some(
            SingleRequestTextStreamPart::ReasoningEnd { id, provider_metadata },
        ),
        StreamPart::ToolInputStart { id, tool_name, provider_metadata, provider_executed } => Some(
            SingleRequestTextStreamPart::ToolInputStart {
                id,
                tool_name,
                provider_metadata,
                dynamic: provider_executed,
                title: None,
            },
        ),
        StreamPart::ToolInputDelta { id, delta, provider_metadata } => Some(
            SingleRequestTextStreamPart::ToolInputDelta { id, delta, provider_metadata },
        ),
        StreamPart::ToolInputEnd { id, provider_metadata } => Some(
            SingleRequestTextStreamPart::ToolInputEnd { id, provider_metadata },
        ),
        StreamPart::Source(source) => Some(SingleRequestTextStreamPart::Source { source: SourceOutput::new(source) }),
        StreamPart::ResponseMetadata(m) => {
            let timestamp = match m.timestamp {
                Some(t) => Some(i64_text(t)),
                None => None,
            };
            Some(SingleRequestTextStreamPart::ResponseMetadata { id: m.id, timestamp, model_id: m.model_id })
        },
        StreamPart::Error { error } => Some(SingleRequestTextStreamPart::Error { error }),
        StreamPart::Raw { raw_value } => Some(SingleRequestTextStreamPart::Raw { raw_value }),
        StreamPart::StreamStart { warnings } => Some(SingleRequestTextStreamPart::StreamStart { warnings }),
        StreamPart::File(file) => Some(SingleRequestTextStreamPart::File { file: stream_file(file) }),
        StreamPart::ToolCall(_) => None,
        StreamPart::ToolResult(_) => None,
        StreamPart::Finish { .. } => None,
    }
}

/// The input last recorded for a tool call id.
pub open spec fn recorded_input(inputs: Seq<(String, Value)>, id: Seq<char>) -> Option<Value>
    decreases inputs.len(),
{
    if inputs.len() == 0 {
        None
    } else if inputs.last().0@ == id {
        Some(inputs.last().1)
    } else {
        recorded_input(inputs.drop_last(), id)
    }
}

/// What parsing a streamed tool call gives: against the tool set when
/// there is one; without one, only a call that the provider ran parses, as
/// a dynamic call; any other call names a tool that is not there.
pub open spec fn stream_parse_outcome(
    tc: LanguageModelToolCall,
    tools: Option<&ToolSet>,
    r: Result<TypedToolCall<Value>, AISDKError>,
) -> bool {
    match tools {
        Some(ts) => parse_outcome(tc, *ts, r),
        None => if tc.provider_executed == Some(true) {
            match parsed_input(tc.input@) {
                Some(v) => r matches Ok(c) && dynamic_call_of(tc, v, Some(true), c),
                None => r matches Err(AISDKError::InvalidToolInput { tool_name: n, tool_input: i, message: m })
                    && n@ == tc.tool_name@ && i@ == tc.input@ && m@ == "Failed to parse JSON: "@ + json_parse_error(
                    tc.input@,
                ),
            }
        } else {
            r matches Err(AISDKError::NoSuchTool { tool_name: n, available_tools: a }) && n@ == tc.tool_name@
                && a@.len() == 0
        },
    }
}

/// The JSON that a stream carries for an error: `{"error": <message>}`.
pub open spec fn error_json(e: AISDKError) -> Value {
    text_field_object("error"@, error_text(e))
}

/// The input of a tool call.
pub open spec fn call_input_of(c: TypedToolCall<Value>) -> Value {
    match c {
        TypedToolCall::Static(s) => s.input,
        TypedToolCall::Dynamic(d) => d.input,
    }
}

/// The value that stands for a missing input: JSON null.
pub open spec fn is_null(v: Value) -> bool {
    json_parse(seq!['n', 'u', 'l', 'l']) == Some(v)
}

/// The state of the run of the tools over the stream of one request: the
/// inputs of the tool calls seen so far, how many tool runs are still out,
/// whether the provider's stream has ended, and the finish part, held back
/// until every tool run is in.
pub struct RunToolsState {
    tool_inputs: Vec<(String, Value)>,
    outstanding: usize,
    can_close: bool,
    finish: Option<SingleRequestTextStreamPart<Value, Value>>,
}

impl RunToolsState {
    /// The inputs recorded, by tool call id, in the order they came.
    pub closed spec fn inputs(&self) -> Seq<(String, Value)> {
        self.tool_inputs@
    }

    /// How many tool runs are still out.
    pub closed spec fn outstanding_runs(&self) -> nat {
        self.outstanding as nat
    }

    /// The provider's stream has ended.
    pub closed spec fn stream_ended(&self) -> bool {
        self.can_close
    }

    /// The finish part that is held back.
    pub closed spec fn held_finish(&self) -> Option<SingleRequestTextStreamPart<Value, Value>> {
        self.finish
    }

    /// How many tool runs are still out.
    pub fn outstanding(&self) -> (n: usize)
        ensures
            n == self.outstanding_runs(),
    {
        self.outstanding
    }

    /// The state at the start of a stream.
    pub fn new() -> (s: Self)
        ensures
            s.inputs().len() == 0,
            s.outstanding_runs() == 0,
            !s.stream_ended(),
            s.held_finish() is None,
    {
        RunToolsState { tool_inputs: Vec::new(), outstanding: 0, can_close: false, finish: None }
    }

    /// Sends the held finish part once the stream has ended and no tool run
    /// is out; it is sent at most once.
    fn attempt_send_finish(&mut self) -> (r: Option<SingleRequestTextStreamPart<Value, Value>>)
        ensures
            final(self).inputs() == old(self).inputs(),
            final(self).outstanding_runs() == old(self).outstanding_runs(),
            final(self).stream_ended() == old(self).stream_ended(),
            if old(self).stream_ended() && old(self).outstanding_runs() == 0 {
                r == old(self).held_finish() && final(self).held_finish() is None
            } else {
                r is None && final(self).held_finish() == old(self).held_finish()
            },
    {
        if self.can_close && self.outstanding == 0 {
            let mut f: Option<SingleRequestTextStreamPart<Value, Value>> = None;
            std::mem::swap(&mut f, &mut self.finish);
            f
        } else {
            None
        }
    }

    /// The provider's finish part: held back, and sent at once when the
    /// stream has ended and no tool run is out.
    pub fn on_finish(
        &mut self,
        finish_reason: LanguageModelFinishReason,
        usage: LanguageModelUsage,
        provider_metadata: Option<ProviderMetadata>,
    ) -> (r: Option<SingleRequestTextStreamPart<Value, Value>>)
        ensures
            final(self).inputs() == old(self).inputs(),
            final(self).outstanding_runs() == old(self).outstanding_runs(),
            final(self).stream_ended() == old(self).stream_ended(),
            ({
                let part = SingleRequestTextStreamPart::<Value, Value>::Finish { finish_reason, usage, provider_metadata };
                if old(self).stream_ended() && old(self).outstanding_runs() == 0 {
                    r == Some(part) && final(self).held_finish() is None
                } else {
                    r is None && final(self).held_finish() == Some(part)
                }
            }),
    {
        self.finish = Some(SingleRequestTextStreamPart::Finish { finish_reason, usage, provider_metadata });
        self.attempt_send_finish()
    }

    /// A tool run starts.
    pub fn start_tool_run(&mut self)
        requires
            old(self).outstanding_runs() < usize::MAX,
        ensures
            final(self).inputs() == old(self).inputs(),
            final(self).outstanding_runs() == old(self).outstanding_runs() + 1,
            final(self).stream_ended() == old(self).stream_ended(),
            final(self).held_finish() == old(self).held_finish(),
    {
        self.outstanding = self.outstanding + 1;
    }

    /// A tool run is in; the held finish part goes out when it was the last
    /// one and the stream has ended.
    pub fn finish_tool_run(&mut self) -> (r: Option<SingleRequestTextStreamPart<Value, Value>>)
        requires
            old(self).outstanding_runs() > 0,
        ensures
            final(self).inputs() == old(self).inputs(),
            final(self).outstanding_runs() == old(self).outstanding_runs() - 1,
            final(self).stream_ended() == old(self).stream_ended(),
            if old(self).stream_ended() && old(self).outstanding_runs() == 1 {
                r == old(self).held_finish() && final(self).held_finish() is None
            } else {
                r is None && final(self).held_finish() == old(self).held_finish()
            },
    {
        self.outstanding = self.outstanding - 1;
        self.attempt_send_finish()
    }

    /// The provider's stream has ended; the held finish part goes out when
    /// no tool run is out.
    pub fn end_of_stream(&mut self) -> (r: Option<SingleRequestTextStreamPart<Value, Value>>)
        ensures
            final(self).inputs() == old(self).inputs(),
            final(self).outstanding_runs() == old(self).outstanding_runs(),
            final(self).stream_ended(),
            if old(self).outstanding_runs() == 0 {
                r == old(self).held_finish() && final(self).held_finish() is None
            } else {
                r is None && final(self).held_finish() == old(self).held_finish()
            },
    {
        self.can_close = true;
        self.attempt_send_finish()
    }

    /// A tool call in the provider's stream: parsed, and its input recorded
    /// under its id; when it does not parse, the error part that the stream
    /// carries instead, and nothing is recorded.
    pub fn on_tool_call(&mut self, tool_call: &LanguageModelToolCall, tools: Option<&ToolSet>) -> (r: Result<
        TypedToolCall<Value>,
        SingleRequestTextStreamPart<Value, Value>,
    >)
        ensures
            final(self).outstanding_runs() == old(self).outstanding_runs(),
            final(self).stream_ended() == old(self).stream_ended(),
            final(self).held_finish() == old(self).held_finish(),
            exists|p: Result<TypedToolCall<Value>, AISDKError>|
                {
                    &&& #[trigger] stream_parse_outcome(*tool_call, tools, p)
                    &&& match p {
                        Ok(c) => r == Ok::<TypedToolCall<Value>, SingleRequestTextStreamPart<Value, Value>>(c)
                            && final(self).inputs().len() == old(self).inputs().len() + 1
                            && final(self).inputs().drop_last() == old(self).inputs() && final(self).inputs().last().0@
                            == call_id_of(c)@ && final(self).inputs().last().1 == call_input_of(c),
                        Err(e) => r == Err::<TypedToolCall<Value>, SingleRequestTextStreamPart<Value, Value>>(
                            SingleRequestTextStreamPart::Error { error: error_json(e) },
                        ) && final(self).inputs() == old(self).inputs(),
                    }
                },
    {
        let parsed = match tools {
            Some(ts) => parse_tool_call(tool_call, ts),
            None => if tool_call.provider_executed == Some(true) {
                parse_provider_executed_dynamic_tool_call(tool_call)
            } else {
                Err(AISDKError::no_such_tool(tool_call.tool_name.as_str(), Vec::new()))
            },
        };
        let ghost p = parsed;
        assert(stream_parse_outcome(*tool_call, tools, p));
        match parsed {
            Ok(call) => {
                let (id, input) = match &call {
                    TypedToolCall::Static(c) => (c.tool_call_id.clone(), c.input.clone()),
                    TypedToolCall::Dynamic(c) => (c.tool_call_id.clone(), c.input.clone()),
                };
                let ghost before = self.tool_inputs@;
                self.tool_inputs.push((id, input));
                assert(self.tool_inputs@.drop_last() =~= before);
                Ok(call)
            },
            Err(e) => {
                let text = e.to_string();
                proof {
                    reveal_strlit("error");
                }
                Err(SingleRequestTextStreamPart::Error { error: json_text_field("error", text.as_str()) })
            },
        }
    }

    fn lookup_input(&self, id: &str) -> (r: Option<Value>)
        ensures
            r == recorded_input(self.inputs(), id@),
    {
        let mut i: usize = self.tool_inputs.len();
        assert(self.tool_inputs@.take(i as int) =~= self.tool_inputs@);
        while i > 0
            invariant
                i <= self.tool_inputs@.len(),
                recorded_input(self.tool_inputs@, id@) == recorded_input(self.tool_inputs@.take(i as int), id@),
            decreases i,
        {
            let ghost pre = self.tool_inputs@.take(i as int);
            assert(pre.drop_last() =~= self.tool_inputs@.take(i - 1));
            if str_eq(self.tool_inputs[i - 1].0.as_str(), id) {
                return Some(self.tool_inputs[i - 1].1.clone());
            }
            i = i - 1;
        }
        None
    }

    /// The result of a tool that the provider ran, as a dynamic result or
    /// error, with the input recorded for its call (JSON null when none
    /// was), marked as run by the provider when the provider says so.
    pub fn on_tool_result(&self, result: LanguageModelToolResult) -> (r: SingleRequestTextStreamPart<Value, Value>)
        ensures
            ({
                let executed = match result.provider_executed {
                    Some(b) => b,
                    None => false,
                };
                let input_ok = |v: Value|
                    match recorded_input(self.inputs(), result.tool_call_id@) {
                        Some(i) => v == i,
                        None => is_null(v),
                    };
                if result.is_error == Some(true) {
                    r matches SingleRequestTextStreamPart::ToolError { tool_error: TypedToolError::Dynamic(e) }
                        && e.error_type@ == "tool-error"@ && e.tool_call_id@ == result.tool_call_id@ && e.tool_name@
                        == result.tool_name@ && input_ok(e.input) && e.error == result.result && e.provider_executed
                        == Some(executed) && e.dynamic
                } else {
                    r matches SingleRequestTextStreamPart::ToolResult { tool_result: TypedToolResult::Dynamic(t) }
                        && t.result_type@ == "tool-result"@ && t.tool_call_id@ == result.tool_call_id@ && t.tool_name@
                        == result.tool_name@ && input_ok(t.input) && t.output == result.result && t.provider_executed
                        == Some(executed) && t.dynamic && t.preliminary is None
                }
            }),
    {
        let input = match self.lookup_input(result.tool_call_id.as_str()) {
            Some(v) => v,
            None => null_json(),
        };
        let executed = match result.provider_executed {
            Some(b) => b,
            None => false,
        };
        if result.is_error == Some(true) {
            let e = DynamicToolError::new(result.tool_call_id.as_str(), result.tool_name.as_str(), input, result.result)
                .with_provider_executed(executed);
            SingleRequestTextStreamPart::ToolError { tool_error: TypedToolError::Dynamic(e) }
        } else {
            let t = DynamicToolResult::new(result.tool_call_id.as_str(), result.tool_name.as_str(), input, result.result)
                .with_provider_executed(executed);
            SingleRequestTextStreamPart::ToolResult { tool_result: TypedToolResult::Dynamic(t) }
        }
    }
}

/// What happens to a parsed tool call once it is passed on.
#[derive(Debug, Clone, Copy, PartialEq, Eq)]
pub enum ToolCallAction {
    /// Nothing more: the tool is not in the set, it cannot be run here, or
    /// the provider ran it.
    Nothing,
    /// The user must approve the call first.
    RequestApproval,
    /// The application runs the tool.
    Execute,
}

/// Decides what happens to a parsed tool call: when its tool is in the set,
/// a call that needs approval asks for it; otherwise the application runs
/// a tool that it can run, unless the provider ran the call.
pub fn tool_call_action(tool_found: bool, needs_approval: bool, has_executor: bool, call: &TypedToolCall<Value>) -> (a:
    ToolCallAction)
    ensures
        a == if !tool_found {
            ToolCallAction::Nothing
        } else if needs_approval {
            ToolCallAction::RequestApproval
        } else if has_executor && crate::generate_text::tool_types::call_provider_executed(*call) != Some(true) {
            ToolCallAction::Execute
        } else {
            ToolCallAction::Nothing
        },
{
    if !tool_found {
        return ToolCallAction::Nothing;
    }
    if needs_approval {
        return ToolCallAction::RequestApproval;
    }
    let executed = match call {
        TypedToolCall::Static(c) => c.provider_executed,
        TypedToolCall::Dynamic(c) => c.provider_executed,
    };
    if has_executor && executed != Some(true) {
        ToolCallAction::Execute
    } else {
        ToolCallAction::Nothing
    }
}

/// The stream part that asks the user to approve a tool call.
pub fn approval_request_part(approval_id: &str, tool_call: TypedToolCall<Value>) -> (p: SingleRequestTextStreamPart<
    Value,
    Value,
>)
    ensures
        p matches SingleRequestTextStreamPart::ToolApprovalRequest { approval_request: a }
            && a.output_type@ == "tool-approval-request"@ && a.approval_id@ == approval_id@ && a.tool_call == tool_call,
{
    SingleRequestTextStreamPart::ToolApprovalRequest { approval_request: ToolApprovalRequestOutput::new(approval_id, tool_call) }
}

/// The stream part of the output of a tool run: its result or its error.
pub fn tool_output_part(output: ToolOutput<Value, Value>) -> (p: SingleRequestTextStreamPart<Value, Value>)
    ensures
        match output {
            ToolOutput::Result(r) => p == SingleRequestTextStreamPart::<Value, Value>::ToolResult { tool_result: r },
            ToolOutput::Error(e) => p == SingleRequestTextStreamPart::<Value, Value>::ToolError { tool_error: e },
        },
{
    match output {
        ToolOutput::Result(r) => SingleRequestTextStreamPart::ToolResult { tool_result: r },
        ToolOutput::Error(e) => SingleRequestTextStreamPart::ToolError { tool_error: e },
    }
}

} // verus!

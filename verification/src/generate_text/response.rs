use super::content::ContentPart;
use super::tool_types::{
    error_provider_executed, result_provider_executed, TypedToolCall, TypedToolError, TypedToolResult,
};
use crate::json::{json_as_str, json_str, json_text, json_to_string};
use crate::prompt::{
    AssistantContent, AssistantContentPart, AssistantModelMessage, ModelMessage, ReasoningPart,
    TextPart, ToolCallPart, ToolContentPart, ToolModelMessage, ToolResultOutput, ToolResultPart,
};
use crate::seq_rel::{filter_map_rel, lemma_filter_map_push};
use serde_json::Value;
use vstd::prelude::*;

verus! {

/// How a tool's output is turned into what the model sees.
#[derive(Debug, Clone, Copy, PartialEq, Eq)]
pub enum ErrorMode {
    /// The output is a result: text when it is a JSON string, else JSON.
    Off,
    /// The output is an error, shown as text.
    Text,
    /// The output is an error, shown as JSON.
    Json,
}

/// The text of an error value: the string it holds, or its JSON text.
pub open spec fn error_text_of(v: Value) -> Seq<char> {
    match json_as_str(v) {
        Some(s) => s,
        None => json_text(v),
    }
}

/// What the model is shown of a tool output in a given mode.
pub open spec fn model_output_of(output: Value, mode: ErrorMode, o: ToolResultOutput) -> bool {
    match mode {
        ErrorMode::Text => o matches ToolResultOutput::ErrorText { value, provider_options: None }
            && value@ == error_text_of(output),
        ErrorMode::Json => o == ToolResultOutput::ErrorJson { value: output, provider_options: None },
        ErrorMode::Off => match json_as_str(output) {
            Some(s) => o matches ToolResultOutput::Text { value, provider_options: None } && value@ == s,
            None => o == ToolResultOutput::Json { value: output, provider_options: None },
        },
    }
}

/// Turns a tool output into what the model is shown of it.
pub fn create_tool_model_output(output: Value, mode: ErrorMode) -> (o: ToolResultOutput)
    ensures
        model_output_of(output, mode, o),
{
    match mode {
        ErrorMode::Text => {
            let text = match json_str(&output) {
                Some(s) => s,
                None => json_to_string(&output),
            };
            ToolResultOutput::ErrorText { value: text, provider_options: None }
        },
        ErrorMode::Json => ToolResultOutput::ErrorJson { value: output, provider_options: None },
        ErrorMode::Off => match json_str(&output) {
            Some(s) => ToolResultOutput::Text { value: s, provider_options: None },
            None => ToolResultOutput::Json { value: output, provider_options: None },
        },
    }
}

/// Whether a content part belongs in the assistant message of the step:
/// not a source, not empty text, and a tool result or error only when the
/// provider ran the tool.
pub open spec fn assistant_kept(p: ContentPart<Value, Value>) -> bool {
    match p {
        ContentPart::Source(_) => false,
        ContentPart::Text(t) => t.text@.len() > 0,
        ContentPart::ToolResult(r) => result_provider_executed(r) == Some(true),
        ContentPart::ToolError(e) => error_provider_executed(e) == Some(true),
        _ => true,
    }
}

/// The output that the tool's own conversion gave for content part `i`,
/// if one was given.
pub open spec fn given_output(outputs: Seq<Option<ToolResultOutput>>, i: int) -> Option<ToolResultOutput> {
    if 0 <= i < outputs.len() {
        outputs[i]
    } else {
        None
    }
}

/// The content parts, each with the output that its tool's own conversion
/// gave, if any.
pub open spec fn with_given_outputs(
    content: Seq<ContentPart<Value, Value>>,
    outputs: Seq<Option<ToolResultOutput>>,
) -> Seq<(ContentPart<Value, Value>, Option<ToolResultOutput>)> {
    Seq::new(content.len(), |i: int| (content[i], given_output(outputs, i)))
}

/// How a content part reads in the assistant message; `given` is what the
/// tool's own conversion made of a tool result.
pub open spec fn assistant_part_of(
    p: ContentPart<Value, Value>,
    given: Option<ToolResultOutput>,
    q: AssistantContentPart,
) -> bool {
    match p {
        ContentPart::Text(t) => q == AssistantContentPart::Text(TextPart { text: t.text, provider_options: None }),
        ContentPart::Reasoning(r) => q == AssistantContentPart::Reasoning(
            ReasoningPart { text: r.text, provider_options: None },
        ),
        ContentPart::ToolCall(c) => q == AssistantContentPart::ToolCall(
            match c {
                TypedToolCall::Static(s) => ToolCallPart {
                    tool_call_id: s.tool_call_id,
                    tool_name: s.tool_name,
                    input: s.input,
                    provider_executed: Some(s.provider_executed == Some(true)),
                    provider_options: None,
                },
                TypedToolCall::Dynamic(d) => ToolCallPart {
                    tool_call_id: d.tool_call_id,
                    tool_name: d.tool_name,
                    input: d.input,
                    provider_executed: Some(d.provider_executed == Some(true)),
                    provider_options: None,
                },
            },
        ),
        ContentPart::ToolResult(r) => q matches AssistantContentPart::ToolResult(t) && tool_result_part_of_result(
            r,
            given,
            t,
        ),
        ContentPart::ToolError(e) => q matches AssistantContentPart::ToolResult(t) && tool_result_part_of_error(
            e,
            t,
            ErrorMode::Json,
        ),
        ContentPart::Source(_) => false,
    }
}

/// The part for a tool result: the output that the tool's own conversion
/// gave, when it gave one, else the default form of the result's output.
pub open spec fn tool_result_part_of_result(
    r: TypedToolResult<Value, Value>,
    given: Option<ToolResultOutput>,
    t: ToolResultPart,
) -> bool {
    let (id, name, out) = match r {
        TypedToolResult::Static(s) => (s.tool_call_id, s.tool_name, s.output),
        TypedToolResult::Dynamic(d) => (d.tool_call_id, d.tool_name, d.output),
    };
    &&& t.tool_call_id == id
    &&& t.tool_name == name
    &&& match given {
        Some(o) => t.output == o,
        None => model_output_of(out, ErrorMode::Off, t.output),
    }
    &&& t.provider_options is None
}

pub open spec fn tool_result_part_of_error(e: TypedToolError<Value>, t: ToolResultPart, mode: ErrorMode) -> bool {
    let (id, name, err) = match e {
        TypedToolError::Static(s) => (s.tool_call_id, s.tool_name, s.error),
        TypedToolError::Dynamic(d) => (d.tool_call_id, d.tool_name, d.error),
    };
    &&& t.tool_call_id == id
    &&& t.tool_name == name
    &&& model_output_of(err, mode, t.output)
    &&& t.provider_options is None
}

/// Whether a content part belongs in the tool message of the step: a tool
/// result or error of a tool that the application ran.
pub open spec fn tool_kept(p: ContentPart<Value, Value>) -> bool {
    match p {
        ContentPart::ToolResult(r) => result_provider_executed(r) != Some(true),
        ContentPart::ToolError(e) => error_provider_executed(e) != Some(true),
        _ => false,
    }
}

/// How a content part reads in the tool message: results as results,
/// errors as error text.
pub open spec fn tool_part_of(p: ContentPart<Value, Value>, given: Option<ToolResultOutput>, q: ToolContentPart) -> bool {
    match p {
        ContentPart::ToolResult(r) => q matches ToolContentPart::ToolResult(t) && tool_result_part_of_result(
            r,
            given,
            t,
        ),
        ContentPart::ToolError(e) => q matches ToolContentPart::ToolResult(t) && tool_result_part_of_error(
            e,
            t,
            ErrorMode::Text,
        ),
        _ => false,
    }
}

pub open spec fn assistant_keep() -> spec_fn((ContentPart<Value, Value>, Option<ToolResultOutput>)) -> bool {
    |x: (ContentPart<Value, Value>, Option<ToolResultOutput>)| assistant_kept(x.0)
}

pub open spec fn assistant_rel() -> spec_fn(
    (ContentPart<Value, Value>, Option<ToolResultOutput>),
    AssistantContentPart,
) -> bool {
    |x: (ContentPart<Value, Value>, Option<ToolResultOutput>), q: AssistantContentPart| assistant_part_of(x.0, x.1, q)
}

pub open spec fn tool_keep() -> spec_fn((ContentPart<Value, Value>, Option<ToolResultOutput>)) -> bool {
    |x: (ContentPart<Value, Value>, Option<ToolResultOutput>)| tool_kept(x.0)
}

pub open spec fn tool_rel() -> spec_fn((ContentPart<Value, Value>, Option<ToolResultOutput>), ToolContentPart) -> bool {
    |x: (ContentPart<Value, Value>, Option<ToolResultOutput>), q: ToolContentPart| tool_part_of(x.0, x.1, q)
}

/// The messages of a step: the assistant message with the parts `a` when
/// there are any, then the tool message with the parts `t` when there are any.
pub open spec fn step_messages(ms: Seq<ModelMessage>, a: Seq<AssistantContentPart>, t: Seq<ToolContentPart>) -> bool {
    let na: int = if a.len() > 0 { 1 } else { 0 };
    let nt: int = if t.len() > 0 { 1 } else { 0 };
    &&& ms.len() == na + nt
    &&& a.len() > 0 ==> (ms[0] matches ModelMessage::Assistant(m) && m.provider_options is None
        && (m.content matches AssistantContent::Parts(v) && v@ == a))
    &&& t.len() > 0 ==> (ms[na] matches ModelMessage::Tool(m) && m.provider_options is None && m.content@ == t)
}

fn assistant_part(p: &ContentPart<Value, Value>) -> (q: AssistantContentPart)
    requires
        assistant_kept(*p),
        !(p is ToolResult),
    ensures
        forall|given: Option<ToolResultOutput>| assistant_part_of(*p, given, q),
{
    match p {
        ContentPart::Text(t) => AssistantContentPart::Text(TextPart { text: t.text.clone(), provider_options: None }),
        ContentPart::Reasoning(r) => AssistantContentPart::Reasoning(
            ReasoningPart { text: r.text.clone(), provider_options: None },
        ),
        ContentPart::ToolCall(c) => {
            let part = match c {
                TypedToolCall::Static(s) => ToolCallPart {
                    tool_call_id: s.tool_call_id.clone(),
                    tool_name: s.tool_name.clone(),
                    input: s.input.clone(),
                    provider_executed: Some(
                        match s.provider_executed {
                            Some(b) => b,
                            None => false,
                        },
                    ),
                    provider_options: None,
                },
                TypedToolCall::Dynamic(d) => ToolCallPart {
                    tool_call_id: d.tool_call_id.clone(),
                    tool_name: d.tool_name.clone(),
                    input: d.input.clone(),
                    provider_executed: Some(
                        match d.provider_executed {
                            Some(b) => b,
                            None => false,
                        },
                    ),
                    provider_options: None,
                },
            };
            AssistantContentPart::ToolCall(part)
        },
        ContentPart::ToolResult(_) => vstd::pervasive::unreached(),
        ContentPart::ToolError(e) => AssistantContentPart::ToolResult(error_part(e, ErrorMode::Json)),
        ContentPart::Source(_) => vstd::pervasive::unreached(),
    }
}

fn result_part(r: &TypedToolResult<Value, Value>, given: Option<ToolResultOutput>) -> (t: ToolResultPart)
    ensures
        tool_result_part_of_result(*r, given, t),
{
    let (id, name, out) = match r {
        TypedToolResult::Static(s) => (s.tool_call_id.clone(), s.tool_name.clone(), s.output.clone()),
        TypedToolResult::Dynamic(d) => (d.tool_call_id.clone(), d.tool_name.clone(), d.output.clone()),
    };
    let output = match given {
        Some(o) => o,
        None => create_tool_model_output(out, ErrorMode::Off),
    };
    ToolResultPart { tool_call_id: id, tool_name: name, output, provider_options: None }
}

fn error_part(e: &TypedToolError<Value>, mode: ErrorMode) -> (t: ToolResultPart)
    ensures
        tool_result_part_of_error(*e, t, mode),
{
    let (id, name, err) = match e {
        TypedToolError::Static(s) => (s.tool_call_id.clone(), s.tool_name.clone(), s.error.clone()),
        TypedToolError::Dynamic(d) => (d.tool_call_id.clone(), d.tool_name.clone(), d.error.clone()),
    };
    let output = create_tool_model_output(err, mode);
    ToolResultPart { tool_call_id: id, tool_name: name, output, provider_options: None }
}

/// The value of a tool error.
pub open spec fn error_value_of(e: TypedToolError<Value>) -> Value {
    match e {
        TypedToolError::Static(s) => s.error,
        TypedToolError::Dynamic(d) => d.error,
    }
}

/// In the tool message of a step, the error of a tool that the application
/// ran is told to the model as an error, in text: the string that the error
/// holds, or else its JSON text. It is never shown as a successful result.
pub proof fn lemma_client_tool_error_is_error_text(
    e: TypedToolError<Value>,
    given: Option<ToolResultOutput>,
    q: ToolContentPart,
)
    requires
        tool_part_of(ContentPart::ToolError(e), given, q),
    ensures
        q matches ToolContentPart::ToolResult(t) && (t.output matches ToolResultOutput::ErrorText { value, .. } && (
        match json_as_str(error_value_of(e)) {
            Some(text) => value@ == text,
            None => value@ == json_text(error_value_of(e)),
        })),
        !(q matches ToolContentPart::ToolResult(t) && (t.output is Text || t.output is Json)),
{
}

/// In the assistant message of a step, the error of a tool that the
/// provider ran is told to the model as an error, as the error's JSON.
pub proof fn lemma_provider_tool_error_is_error_json(
    e: TypedToolError<Value>,
    given: Option<ToolResultOutput>,
    q: AssistantContentPart,
)
    requires
        assistant_part_of(ContentPart::ToolError(e), given, q),
    ensures
        q matches AssistantContentPart::ToolResult(t) && (t.output matches ToolResultOutput::ErrorJson { value, .. }
            && value == error_value_of(e)),
{
}

/// A tool result is shown to the model as a result: what the tool's own
/// conversion made of it when it made something, else text when its output
/// is a JSON string and JSON otherwise; never as an error.
pub proof fn lemma_tool_result_is_result(
    r: TypedToolResult<Value, Value>,
    given: Option<ToolResultOutput>,
    t: ToolResultPart,
)
    requires
        tool_result_part_of_result(r, given, t),
    ensures
        given matches Some(o) ==> t.output == o,
        given is None ==> (t.output is Text || t.output is Json),
{
}

/// The messages that a step adds to the conversation: an assistant message
/// with the text, reasoning and tool calls of the step and the results of
/// tools that the provider ran, then a tool message with the results and
/// errors of tools that the application ran. Each message is left out when
/// it would be empty. `model_outputs[i]`, when it is there and `Some`, is
/// what the tool's own output conversion made of the result in content part
/// `i`; it stands in place of the default form of that result.
pub fn to_response_messages(
    content: Vec<ContentPart<Value, Value>>,
    model_outputs: Vec<Option<ToolResultOutput>>,
) -> (r: Vec<ModelMessage>)
    ensures
        exists|a: Seq<AssistantContentPart>, t: Seq<ToolContentPart>|
            {
                &&& filter_map_rel(with_given_outputs(content@, model_outputs@), a, assistant_keep(), assistant_rel())
                &&& filter_map_rel(with_given_outputs(content@, model_outputs@), t, tool_keep(), tool_rel())
                &&& step_messages(r@, a, t)
            },
{
    let ghost xs = with_given_outputs(content@, model_outputs@);
    let ghost outs0 = model_outputs@;
    let mut outputs = model_outputs;
    let mut assistant_content: Vec<AssistantContentPart> = Vec::new();
    let mut tool_content: Vec<ToolContentPart> = Vec::new();
    let n = content.len();
    let mut i: usize = 0;
    while i < n
        invariant
            n == content@.len(),
            i <= n,
            xs == with_given_outputs(content@, outs0),
            outputs@.len() == outs0.len(),
            forall|j: int| i <= j < outs0.len() ==> outputs@[j] == outs0[j],
            filter_map_rel(xs.take(i as int), assistant_content@, assistant_keep(), assistant_rel()),
            filter_map_rel(xs.take(i as int), tool_content@, tool_keep(), tool_rel()),
        decreases n - i,
    {
        let p = &content[i];
        let given = if i < outputs.len() {
            outputs[i].take()
        } else {
            None
        };
        assert(given == given_output(outs0, i as int));
        let ghost x = (*p, given);
        assert(xs[i as int] == x);
        let ghost a0 = assistant_content@;
        let ghost t0 = tool_content@;
        assert(xs.take(i + 1) =~= xs.take(i as int).push(x));
        let (aq, tq): (Option<AssistantContentPart>, Option<ToolContentPart>) = match p {
            ContentPart::ToolResult(r) => {
                let executed = match r {
                    TypedToolResult::Static(s) => s.provider_executed,
                    TypedToolResult::Dynamic(d) => d.provider_executed,
                };
                let part = result_part(r, given);
                if executed == Some(true) {
                    (Some(AssistantContentPart::ToolResult(part)), None)
                } else {
                    (None, Some(ToolContentPart::ToolResult(part)))
                }
            },
            ContentPart::ToolError(e) => {
                let executed = match e {
                    TypedToolError::Static(s) => s.provider_executed,
                    TypedToolError::Dynamic(d) => d.provider_executed,
                };
                if executed == Some(true) {
                    (Some(assistant_part(p)), None)
                } else {
                    (None, Some(ToolContentPart::ToolResult(error_part(e, ErrorMode::Text))))
                }
            },
            ContentPart::Source(_) => (None, None),
            ContentPart::Text(t) => {
                if t.text.as_str().is_empty() {
                    (None, None)
                } else {
                    (Some(assistant_part(p)), None)
                }
            },
            _ => (Some(assistant_part(p)), None),
        };
        assert(aq is Some <==> assistant_kept(*p));
        assert(tq is Some <==> tool_kept(*p));
        match aq {
            Some(q) => {
                proof {
                    lemma_filter_map_push(xs.take(i as int), a0, assistant_keep(), assistant_rel(), x, q);
                }
                assistant_content.push(q);
            },
            None => {
                proof {
                    lemma_filter_map_push(xs.take(i as int), a0, assistant_keep(), assistant_rel(), x, arbitrary());
                }
            },
        }
        match tq {
            Some(q) => {
                proof {
                    lemma_filter_map_push(xs.take(i as int), t0, tool_keep(), tool_rel(), x, q);
                }
                tool_content.push(q);
            },
            None => {
                proof {
                    lemma_filter_map_push(xs.take(i as int), t0, tool_keep(), tool_rel(), x, arbitrary());
                }
            },
        }
        i = i + 1;
    }
    assert(xs.take(n as int) =~= xs);
    let ghost a = assistant_content@;
    let ghost t = tool_content@;
    let mut messages: Vec<ModelMessage> = Vec::new();
    if assistant_content.len() > 0 {
        messages.push(ModelMessage::Assistant(AssistantModelMessage::with_parts(assistant_content)));
    }
    if tool_content.len() > 0 {
        messages.push(ModelMessage::Tool(ToolModelMessage::new(tool_content)));
    }
    assert(step_messages(messages@, a, t));
    messages
}

/// A message that a generation step adds to the conversation.
#[derive(Debug, Clone, PartialEq)]
pub enum ResponseMessage {
    Assistant(AssistantModelMessage),
    Tool(ToolModelMessage),
}

/// The conversation message that a response message is.
pub open spec fn model_message_of(m: ResponseMessage) -> ModelMessage {
    match m {
        ResponseMessage::Assistant(a) => ModelMessage::Assistant(a),
        ResponseMessage::Tool(t) => ModelMessage::Tool(t),
    }
}

/// The response message that an assistant or tool message is.
pub open spec fn response_message_of(m: ModelMessage) -> ResponseMessage
    recommends
        m is Assistant || m is Tool,
{
    match m {
        ModelMessage::Assistant(a) => ResponseMessage::Assistant(a),
        ModelMessage::Tool(t) => ResponseMessage::Tool(t),
        _ => arbitrary(),
    }
}

/// Turning an assistant or tool message into a response message and back
/// gives the message again, and turning a response message into a
/// conversation message and back gives the response message again.
pub proof fn lemma_response_message_round_trip(m: ModelMessage, r: ResponseMessage)
    requires
        m is Assistant || m is Tool,
    ensures
        model_message_of(response_message_of(m)) == m,
        response_message_of(model_message_of(r)) == r,
{
}

impl ResponseMessage {
    pub fn from_assistant(message: AssistantModelMessage) -> (r: Self)
        ensures
            r == ResponseMessage::Assistant(message),
    {
        ResponseMessage::Assistant(message)
    }

    pub fn from_tool(message: ToolModelMessage) -> (r: Self)
        ensures
            r == ResponseMessage::Tool(message),
    {
        ResponseMessage::Tool(message)
    }

    /// The response message of an assistant or tool message. System and
    /// user messages are never response messages.
    pub fn from_model_message(message: ModelMessage) -> (r: Self)
        requires
            message is Assistant || message is Tool,
        ensures
            r == response_message_of(message),
    {
        match message {
            ModelMessage::Assistant(m) => ResponseMessage::Assistant(m),
            ModelMessage::Tool(m) => ResponseMessage::Tool(m),
            _ => vstd::pervasive::unreached(),
        }
    }

    /// The conversation message that this response message is.
    pub fn into_model_message(self) -> (m: ModelMessage)
        ensures
            m == model_message_of(self),
    {
        match self {
            ResponseMessage::Assistant(a) => ModelMessage::Assistant(a),
            ResponseMessage::Tool(t) => ModelMessage::Tool(t),
        }
    }

    pub fn is_assistant(&self) -> (b: bool)
        ensures
            b == (*self is Assistant),
    {
        match self {
            ResponseMessage::Assistant(_) => true,
            _ => false,
        }
    }

    pub fn is_tool(&self) -> (b: bool)
        ensures
            b == (*self is Tool),
    {
        match self {
            ResponseMessage::Tool(_) => true,
            _ => false,
        }
    }

    pub fn as_assistant(&self) -> (r: Option<&AssistantModelMessage>)
        ensures
            match *self {
                ResponseMessage::Assistant(m) => r == Some(&m),
                ResponseMessage::Tool(_) => r is None,
            },
    {
        match self {
            ResponseMessage::Assistant(msg) => Some(msg),
            _ => None,
        }
    }

    pub fn as_tool(&self) -> (r: Option<&ToolModelMessage>)
        ensures
            match *self {
                ResponseMessage::Tool(m) => r == Some(&m),
                ResponseMessage::Assistant(_) => r is None,
            },
    {
        match self {
            ResponseMessage::Tool(msg) => Some(msg),
            _ => None,
        }
    }
}

} // verus!

use super::tool_types::{DynamicToolCall, StaticToolCall, TypedToolCall};
use crate::error::AISDKError;
use crate::json::{empty_json_object, json_parse, json_parse_error, json_text, json_to_string, parse_json};
use crate::provider::{LanguageModelToolCall, ProviderMetadata};
use crate::text::{char_is_whitespace, chars_of, is_white_space, push_str};
use crate::tool::ToolSet;
use serde_json::Value;
use vstd::prelude::*;

verus! {

/// What checking a tool input against the tool's JSON schema gave.
#[derive(Debug, Clone, PartialEq)]
pub enum SchemaCheck {
    /// The schema itself could not be compiled; the message says why.
    InvalidSchema(String),
    /// The schema compiled: whether the input conforms, and each violation
    /// found, as its message and the path of the offending part of the input.
    Checked { valid: bool, errors: Vec<(String, String)> },
}

/// A schema check as a value.
pub enum SchemaVerdict {
    InvalidSchema(Seq<char>),
    Checked { valid: bool, errors: Seq<(Seq<char>, Seq<char>)> },
}

pub open spec fn verdict_of(c: SchemaCheck) -> SchemaVerdict {
    match c {
        SchemaCheck::InvalidSchema(m) => SchemaVerdict::InvalidSchema(m@),
        SchemaCheck::Checked { valid, errors } => SchemaVerdict::Checked {
            valid,
            errors: errors@.map_values(|e: (String, String)| (e.0@, e.1@)),
        },
    }
}

/// The input passes the check: the schema compiled and the input conforms.
pub open spec fn schema_accepts(v: SchemaVerdict) -> bool {
    v matches SchemaVerdict::Checked { valid: true, .. }
}

/// What the `jsonschema` crate finds of an input and a schema.
pub uninterp spec fn schema_verdict(input: Value, schema: Value) -> SchemaVerdict;

/// Compiles `schema` with `jsonschema::validator_for`; when that fails,
/// gives the error's text. Otherwise gives whether `Validator::is_valid`
/// holds of `input`, and for each error of `Validator::iter_errors` its
/// text and the text of its instance path. The outcome is named
/// `schema_verdict` of the input and the schema.
#[verifier::external_body]
pub(crate) fn check_against_schema(input: &Value, schema: &Value) -> (r: SchemaCheck)
    ensures
        verdict_of(r) == schema_verdict(*input, *schema),
{
    match jsonschema::validator_for(schema) {
        Err(e) => SchemaCheck::InvalidSchema(e.to_string()),
        Ok(v) => SchemaCheck::Checked {
            valid: v.is_valid(input),
            errors: v.iter_errors(input).map(|e| (e.to_string(), e.instance_path().to_string())).collect(),
        },
    }
}

/// The message of one schema violation: its text, " at ", and the path of
/// the offending part of the input.
pub open spec fn violation_message(e: (Seq<char>, Seq<char>)) -> Seq<char> {
    e.0 + " at "@ + e.1
}

/// The messages of the violations, in order.
pub open spec fn violation_messages(errors: Seq<(Seq<char>, Seq<char>)>) -> Seq<Seq<char>> {
    errors.map_values(|e: (Seq<char>, Seq<char>)| violation_message(e))
}

fn violation_texts(errors: &Vec<(String, String)>) -> (r: Vec<String>)
    ensures
        r@.map_values(|m: String| m@) == violation_messages(errors@.map_values(|e: (String, String)| (e.0@, e.1@))),
{
    let ghost es = errors@.map_values(|e: (String, String)| (e.0@, e.1@));
    let mut r: Vec<String> = Vec::new();
    let n = errors.len();
    let mut i: usize = 0;
    while i < n
        invariant
            n == errors@.len(),
            es == errors@.map_values(|e: (String, String)| (e.0@, e.1@)),
            i <= n,
            r@.map_values(|m: String| m@) == violation_messages(es.take(i as int)),
        decreases n - i,
    {
        let mut m = errors[i].0.clone();
        push_str(&mut m, " at ");
        push_str(&mut m, errors[i].1.as_str());
        let ghost before = r@;
        r.push(m);
        assert(m@ == violation_message(es[i as int]));
        assert(es.take(i + 1) =~= es.take(i as int).push(es[i as int]));
        assert(violation_messages(es.take(i + 1)) =~= violation_messages(es.take(i as int)).push(
            violation_message(es[i as int]),
        ));
        assert(r@.map_values(|m: String| m@) =~= before.map_values(|m: String| m@).push(m@));
        i = i + 1;
    }
    assert(es.take(n as int) =~= es);
    r
}

/// The messages joined with `sep` between them.
pub open spec fn join(ms: Seq<Seq<char>>, sep: Seq<char>) -> Seq<char>
    decreases ms.len(),
{
    if ms.len() == 0 {
        Seq::empty()
    } else if ms.len() == 1 {
        ms[0]
    } else {
        join(ms.drop_last(), sep) + sep + ms.last()
    }
}

fn join_messages(ms: &Vec<String>, sep: &str) -> (r: String)
    ensures
        r@ == join(ms@.map_values(|m: String| m@), sep@),
{
    let ghost views = ms@.map_values(|m: String| m@);
    let mut r = String::new();
    let n = ms.len();
    let mut i: usize = 0;
    while i < n
        invariant
            n == ms@.len(),
            views == ms@.map_values(|m: String| m@),
            i <= n,
            r@ == join(views.take(i as int), sep@),
        decreases n - i,
    {
        assert(views.take(i + 1).drop_last() =~= views.take(i as int));
        if i != 0 {
            push_str(&mut r, sep);
        } else {
            assert(views.take(1) =~= seq![views[0]]);
        }
        push_str(&mut r, ms[i].as_str());
        i = i + 1;
    }
    assert(views.take(n as int) =~= views);
    r
}

/// The error that an input which does not pass the schema check gives.
pub open spec fn validation_error(tool_name: Seq<char>, input: Value, v: SchemaVerdict, e: AISDKError) -> bool {
    match v {
        SchemaVerdict::InvalidSchema(m) => e matches AISDKError::InvalidToolInput { tool_name: n, tool_input: i, message: msg }
            && n@ == tool_name && i@ == json_text(input) && msg@ == "Invalid tool schema: "@ + m,
        SchemaVerdict::Checked { valid, errors } => {
            &&& !valid
            &&& e matches AISDKError::InvalidToolInput { tool_name: n, tool_input: i, message: msg }
                && n@ == tool_name && i@ == json_text(input) && msg@ == "Input does not match schema: "@ + join(
                violation_messages(errors),
                "; "@,
            )
        },
    }
}

/// Checks a tool input against the tool's schema.
pub fn validate_tool_input(tool_name: &str, input: &Value, schema: &Value) -> (r: Result<(), AISDKError>)
    ensures
        schema_accepts(schema_verdict(*input, *schema)) ==> r is Ok,
        !schema_accepts(schema_verdict(*input, *schema)) ==> (r matches Err(e) && validation_error(
            tool_name@,
            *input,
            schema_verdict(*input, *schema),
            e,
        )),
{
    match check_against_schema(input, schema) {
        SchemaCheck::InvalidSchema(m) => {
            let mut msg = "Invalid tool schema: ".to_owned();
            push_str(&mut msg, m.as_str());
            let text = json_to_string(input);
            Err(AISDKError::invalid_tool_input(tool_name, text.as_str(), msg.as_str()))
        },
        SchemaCheck::Checked { valid, errors } => {
            if valid {
                return Ok(());
            }
            let mut msg = "Input does not match schema: ".to_owned();
            let ms = violation_texts(&errors);
            let joined = join_messages(&ms, "; ");
            push_str(&mut msg, joined.as_str());
            let text = json_to_string(input);
            Err(AISDKError::invalid_tool_input(tool_name, text.as_str(), msg.as_str()))
        },
    }
}

/// Every character is white space (so `str::trim` leaves nothing).
pub open spec fn all_white(s: Seq<char>) -> bool {
    forall|i: int| 0 <= i < s.len() ==> is_white_space(#[trigger] s[i])
}

/// The text of the empty JSON object.
pub open spec fn empty_object_text() -> Seq<char> {
    seq!['{', '}']
}

/// The JSON input of a tool call: the empty object when the text is blank,
/// else the parsed text.
pub open spec fn parsed_input(text: Seq<char>) -> Option<Value> {
    if all_white(text) {
        json_parse(empty_object_text())
    } else {
        json_parse(text)
    }
}

fn is_blank(s: &str) -> (b: bool)
    ensures
        b == all_white(s@),
{
    let chars = chars_of(s);
    let n = chars.len();
    let mut i: usize = 0;
    while i < n
        invariant
            n == chars@.len(),
            chars@ == s@,
            i <= n,
            forall|k: int| 0 <= k < i ==> is_white_space(#[trigger] chars@[k]),
        decreases n - i,
    {
        if !char_is_whitespace(chars[i]) {
            return false;
        }
        i = i + 1;
    }
    true
}

/// Parses the JSON input of a tool call; an input that is blank is taken as
/// the empty object.
pub fn parse_tool_input(tool_name: &str, input: &str) -> (r: Result<Value, AISDKError>)
    ensures
        match parsed_input(input@) {
            Some(v) => r == Ok::<Value, AISDKError>(v),
            None => r matches Err(AISDKError::InvalidToolInput { tool_name: n, tool_input: i, message: m })
                && n@ == tool_name@ && i@ == input@ && m@ == "Failed to parse JSON: "@ + json_parse_error(input@),
        },
{
    if is_blank(input) {
        return Ok(empty_json_object());
    }
    match parse_json(input) {
        Ok(v) => Ok(v),
        Err(e) => {
            let mut msg = "Failed to parse JSON: ".to_owned();
            push_str(&mut msg, e.as_str());
            Err(AISDKError::invalid_tool_input(tool_name, input, msg.as_str()))
        },
    }
}

/// The same metadata, by content.
pub open spec fn same_metadata(a: Option<ProviderMetadata>, b: Option<ProviderMetadata>) -> bool {
    match (a, b) {
        (Some(x), Some(y)) => x@ == y@,
        (None, None) => true,
        _ => false,
    }
}

/// A dynamic tool call built from a provider's tool call, its parsed input,
/// and the given provider-executed flag.
pub open spec fn dynamic_call_of(
    tc: LanguageModelToolCall,
    input: Value,
    executed: Option<bool>,
    c: TypedToolCall<Value>,
) -> bool {
    c matches TypedToolCall::Dynamic(d) && d.call_type@ == "tool-call"@ && d.tool_call_id@ == tc.tool_call_id@
        && d.tool_name@ == tc.tool_name@ && d.input == input && d.provider_executed == executed && same_metadata(
        d.provider_metadata,
        tc.provider_metadata,
    ) && d.dynamic && d.invalid is None && d.error is None
}

/// A static tool call built from a provider's tool call and its parsed input.
pub open spec fn static_call_of(tc: LanguageModelToolCall, input: Value, c: TypedToolCall<Value>) -> bool {
    c matches TypedToolCall::Static(s) && s.call_type@ == "tool-call"@ && s.tool_call_id@ == tc.tool_call_id@
        && s.tool_name@ == tc.tool_name@ && s.input == input && s.provider_executed == tc.provider_executed
        && same_metadata(s.provider_metadata, tc.provider_metadata) && s.dynamic is None && s.invalid is None
}

/// Parses the call of a tool that the provider ran and that is not in the
/// tool set: a dynamic call, marked as run by the provider.
pub fn parse_provider_executed_dynamic_tool_call(tool_call: &LanguageModelToolCall) -> (r: Result<
    TypedToolCall<Value>,
    AISDKError,
>)
    ensures
        match parsed_input(tool_call.input@) {
            Some(v) => r matches Ok(c) && dynamic_call_of(*tool_call, v, Some(true), c),
            None => r matches Err(AISDKError::InvalidToolInput { tool_name: n, tool_input: i, message: m })
                && n@ == tool_call.tool_name@ && i@ == tool_call.input@ && m@ == "Failed to parse JSON: "@
                + json_parse_error(tool_call.input@),
        },
{
    let input = match parse_tool_input(tool_call.tool_name.as_str(), tool_call.input.as_str()) {
        Ok(v) => v,
        Err(e) => return Err(e),
    };
    let mut call = DynamicToolCall::new(tool_call.tool_call_id.as_str(), tool_call.tool_name.as_str(), input)
        .with_provider_executed(true);
    match &tool_call.provider_metadata {
        Some(m) => {
            call = call.with_provider_metadata(m.clone());
        },
        None => {},
    }
    Ok(TypedToolCall::Dynamic(call))
}

/// What parsing a provider's tool call against the tool set gives.
pub open spec fn parse_outcome(tc: LanguageModelToolCall, tools: ToolSet, r: Result<TypedToolCall<Value>, AISDKError>) -> bool {
    match tools.spec_get(tc.tool_name@) {
        None => if tc.provider_executed == Some(true) {
            match parsed_input(tc.input@) {
                Some(v) => r matches Ok(c) && dynamic_call_of(tc, v, Some(true), c),
                None => r matches Err(AISDKError::InvalidToolInput { tool_name: n, tool_input: i, message: m })
                    && n@ == tc.tool_name@ && i@ == tc.input@ && m@ == "Failed to parse JSON: "@ + json_parse_error(tc.input@),
            }
        } else {
            r matches Err(AISDKError::NoSuchTool { tool_name: n, available_tools: a }) && n@ == tc.tool_name@
                && a@.len() == tools.spec_entries().len()
                && forall|k: int| 0 <= k < a@.len() ==> (#[trigger] a@[k]) == tools.spec_entries()[k].0
        },
        Some(tool) => match parsed_input(tc.input@) {
            None => r matches Err(AISDKError::InvalidToolInput { tool_name: n, tool_input: i, message: m })
                && n@ == tc.tool_name@ && i@ == tc.input@ && m@ == "Failed to parse JSON: "@ + json_parse_error(tc.input@),
            Some(v) => if schema_accepts(schema_verdict(v, tool.input_schema)) {
                r matches Ok(c) && if tool.tool_type is Dynamic {
                    dynamic_call_of(tc, v, tc.provider_executed, c)
                } else {
                    static_call_of(tc, v, c)
                }
            } else {
                r matches Err(e) && validation_error(tc.tool_name@, v, schema_verdict(v, tool.input_schema), e)
            },
        },
    }
}

/// A parsed tool call is the provider's call: it keeps the call's id and
/// the tool's name, and whether the provider ran it, unchanged, so a call
/// that the provider ran is never taken for one that the application must
/// run. A tool that is not in the set is called dynamically only when the
/// provider ran it.
pub proof fn lemma_parsed_call_keeps_the_call(
    tc: LanguageModelToolCall,
    tools: ToolSet,
    r: Result<TypedToolCall<Value>, AISDKError>,
)
    requires
        parse_outcome(tc, tools, r),
    ensures
        r matches Ok(TypedToolCall::Static(s)) ==> (s.tool_call_id@ == tc.tool_call_id@ && s.tool_name@
            == tc.tool_name@ && s.provider_executed == tc.provider_executed),
        r matches Ok(TypedToolCall::Dynamic(d)) ==> (d.tool_call_id@ == tc.tool_call_id@ && d.tool_name@
            == tc.tool_name@ && d.provider_executed == tc.provider_executed),
        (r is Ok && tools.spec_get(tc.tool_name@) is None) ==> tc.provider_executed == Some(true),
{
}

/// Parses a provider's tool call against the tool set: looks the tool up,
/// parses the JSON input (blank input is the empty object), checks it
/// against the tool's input schema, and gives a dynamic call for a dynamic
/// tool and a static call otherwise. A call of a tool that is not in the set
/// is accepted only when the provider ran it.
pub fn parse_tool_call(tool_call: &LanguageModelToolCall, tools: &ToolSet) -> (r: Result<
    TypedToolCall<Value>,
    AISDKError,
>)
    ensures
        parse_outcome(*tool_call, *tools, r),
{
    let tool_name = tool_call.tool_name.as_str();
    let tool = match tools.get(tool_name) {
        Some(t) => t,
        None => {
            if tool_call.provider_executed == Some(true) {
                return parse_provider_executed_dynamic_tool_call(tool_call);
            }
            return Err(AISDKError::no_such_tool(tool_name, tools.names()));
        },
    };
    let input = match parse_tool_input(tool_name, tool_call.input.as_str()) {
        Ok(v) => v,
        Err(e) => return Err(e),
    };
    match validate_tool_input(tool_name, &input, &tool.input_schema) {
        Ok(()) => {},
        Err(e) => return Err(e),
    }
    if tool.is_dynamic() {
        let mut call = DynamicToolCall::new(tool_call.tool_call_id.as_str(), tool_name, input);
        match tool_call.provider_executed {
            Some(executed) => {
                call = call.with_provider_executed(executed);
            },
            None => {},
        }
        match &tool_call.provider_metadata {
            Some(m) => {
                call = call.with_provider_metadata(m.clone());
            },
            None => {},
        }
        Ok(TypedToolCall::Dynamic(call))
    } else {
        let mut call = StaticToolCall::new(tool_call.tool_call_id.as_str(), tool_name, input);
        match tool_call.provider_executed {
            Some(executed) => {
                call = call.with_provider_executed(executed);
            },
            None => {},
        }
        match &tool_call.provider_metadata {
            Some(m) => {
                call = call.with_provider_metadata(m.clone());
            },
            None => {},
        }
        Ok(TypedToolCall::Static(call))
    }
}

} // verus!

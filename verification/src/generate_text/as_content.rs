use super::content::{ContentPart, ReasoningOutput, SourceOutput, TextOutput};
use super::parse_tool_call::same_metadata;
use super::tool_types::{
    call_id_of, DynamicToolCall, DynamicToolError, DynamicToolResult, StaticToolCall, StaticToolError,
    StaticToolResult, ToolOutput, TypedToolCall, TypedToolError, TypedToolResult,
};
use crate::provider::LanguageModelContent;
use crate::seq_rel::{filter_map_rel, lemma_filter_map_push};
use crate::tool::str_eq;
use serde_json::Value;
use vstd::prelude::*;

verus! {

/// The position of the first call with the given id.
pub open spec fn find_call(calls: Seq<TypedToolCall<Value>>, id: Seq<char>) -> Option<int>
    decreases calls.len(),
{
    if calls.len() == 0 {
        None
    } else {
        match find_call(calls.drop_last(), id) {
            Some(i) => Some(i),
            None => if call_id_of(calls.last())@ == id {
                Some(calls.len() - 1)
            } else {
                None
            },
        }
    }
}

/// `b` is a copy of the call `a` (provider metadata equal in content).
pub open spec fn call_copy(a: TypedToolCall<Value>, b: TypedToolCall<Value>) -> bool {
    match (a, b) {
        (TypedToolCall::Static(x), TypedToolCall::Static(y)) => x.call_type == y.call_type && x.tool_call_id
            == y.tool_call_id && x.tool_name == y.tool_name && x.input == y.input && x.provider_executed
            == y.provider_executed && same_metadata(x.provider_metadata, y.provider_metadata) && x.dynamic
            == y.dynamic && x.invalid == y.invalid,
        (TypedToolCall::Dynamic(x), TypedToolCall::Dynamic(y)) => x.call_type == y.call_type && x.tool_call_id
            == y.tool_call_id && x.tool_name == y.tool_name && x.input == y.input && x.provider_executed
            == y.provider_executed && same_metadata(x.provider_metadata, y.provider_metadata) && x.dynamic
            == y.dynamic && x.invalid == y.invalid && x.error == y.error,
        _ => false,
    }
}

pub(crate) fn copy_call(c: &TypedToolCall<Value>) -> (r: TypedToolCall<Value>)
    ensures
        call_copy(*c, r),
{
    match c {
        TypedToolCall::Static(s) => TypedToolCall::Static(
            StaticToolCall {
                call_type: s.call_type.clone(),
                tool_call_id: s.tool_call_id.clone(),
                tool_name: s.tool_name.clone(),
                input: s.input.clone(),
                provider_executed: s.provider_executed,
                provider_metadata: match &s.provider_metadata {
                    Some(m) => Some(m.clone()),
                    None => None,
                },
                dynamic: s.dynamic,
                invalid: s.invalid,
            },
        ),
        TypedToolCall::Dynamic(d) => TypedToolCall::Dynamic(
            DynamicToolCall {
                call_type: d.call_type.clone(),
                tool_call_id: d.tool_call_id.clone(),
                tool_name: d.tool_name.clone(),
                input: d.input.clone(),
                provider_executed: d.provider_executed,
                provider_metadata: match &d.provider_metadata {
                    Some(m) => Some(m.clone()),
                    None => None,
                },
                dynamic: d.dynamic,
                invalid: d.invalid,
                error: match &d.error {
                    Some(e) => Some(e.clone()),
                    None => None,
                },
            },
        ),
    }
}

fn find_call_exec(calls: &Vec<TypedToolCall<Value>>, id: &str) -> (r: Option<usize>)
    ensures
        match find_call(calls@, id@) {
            Some(i) => r == Some(i as usize) && 0 <= i < calls@.len(),
            None => r is None,
        },
{
    let n = calls.len();
    let mut i: usize = 0;
    while i < n
        invariant
            n == calls@.len(),
            i <= n,
            find_call(calls@.take(i as int), id@) is None,
        decreases n - i,
    {
        assert(calls@.take(i + 1).drop_last() =~= calls@.take(i as int));
        let cid = match &calls[i] {
            TypedToolCall::Static(s) => s.tool_call_id.as_str(),
            TypedToolCall::Dynamic(d) => d.tool_call_id.as_str(),
        };
        if str_eq(cid, id) {
            proof {
                lemma_find_call_prefix(calls@, i as int + 1, id@);
                lemma_find_call_bounds(calls@, id@);
            }
            return Some(i);
        }
        i = i + 1;
    }
    assert(calls@.take(n as int) =~= calls@);
    None
}

proof fn lemma_find_call_bounds(calls: Seq<TypedToolCall<Value>>, id: Seq<char>)
    ensures
        find_call(calls, id) matches Some(i) ==> 0 <= i < calls.len() && call_id_of(calls[i])@ == id,
    decreases calls.len(),
{
    if calls.len() > 0 {
        lemma_find_call_bounds(calls.drop_last(), id);
    }
}

/// A match found in a prefix is the match of the whole sequence.
proof fn lemma_find_call_prefix(calls: Seq<TypedToolCall<Value>>, k: int, id: Seq<char>)
    requires
        0 <= k <= calls.len(),
        find_call(calls.take(k), id) is Some,
    ensures
        find_call(calls, id) == find_call(calls.take(k), id),
    decreases calls.len() - k,
{
    if k < calls.len() {
        assert(calls.take(k + 1).drop_last() =~= calls.take(k));
        lemma_find_call_prefix(calls, k + 1, id);
    } else {
        assert(calls.take(k) =~= calls);
    }
}

/// Which provider content items become content parts: all but files, and
/// tool calls and provider tool results only when a parsed call has their id.
pub open spec fn content_kept(calls: Seq<TypedToolCall<Value>>, p: LanguageModelContent) -> bool {
    match p {
        LanguageModelContent::File(_) => false,
        LanguageModelContent::ToolCall(t) => find_call(calls, t.tool_call_id@) is Some,
        LanguageModelContent::ToolResult(t) => find_call(calls, t.tool_call_id@) is Some,
        _ => true,
    }
}

/// How a provider content item reads as a content part.
pub open spec fn content_part_of(calls: Seq<TypedToolCall<Value>>, p: LanguageModelContent, q: ContentPart<Value, Value>) -> bool {
    match p {
        LanguageModelContent::Text { text } => q == ContentPart::<Value, Value>::Text(TextOutput { text }),
        LanguageModelContent::Reasoning { text } => q == ContentPart::<Value, Value>::Reasoning(
            ReasoningOutput { text, provider_metadata: None },
        ),
        LanguageModelContent::Source(source) => q == ContentPart::<Value, Value>::Source(SourceOutput { source }),
        LanguageModelContent::File(_) => false,
        LanguageModelContent::ToolCall(t) => q matches ContentPart::ToolCall(c) && call_copy(
            calls[find_call(calls, t.tool_call_id@)->0],
            c,
        ),
        LanguageModelContent::ToolResult(t) => {
            let call = calls[find_call(calls, t.tool_call_id@)->0];
            let input = match call {
                TypedToolCall::Static(s) => s.input,
                TypedToolCall::Dynamic(d) => d.input,
            };
            if t.is_error == Some(true) {
                match call {
                    TypedToolCall::Static(_) => q matches ContentPart::ToolError(TypedToolError::Static(e))
                        && e.error_type@ == "tool-error"@ && e.tool_call_id@ == t.tool_call_id@ && e.tool_name@
                        == t.tool_name@ && e.input == input && e.error == t.result && e.provider_executed
                        == Some(true) && e.dynamic is None,
                    TypedToolCall::Dynamic(_) => q matches ContentPart::ToolError(TypedToolError::Dynamic(e))
                        && e.error_type@ == "tool-error"@ && e.tool_call_id@ == t.tool_call_id@ && e.tool_name@
                        == t.tool_name@ && e.input == input && e.error == t.result && e.provider_executed
                        == Some(true) && e.dynamic,
                }
            } else {
                match call {
                    TypedToolCall::Static(_) => q matches ContentPart::ToolResult(TypedToolResult::Static(r))
                        && r.result_type@ == "tool-result"@ && r.tool_call_id@ == t.tool_call_id@ && r.tool_name@
                        == t.tool_name@ && r.input == input && r.output == t.result && r.provider_executed
                        == Some(true) && r.dynamic is None && r.preliminary is None,
                    TypedToolCall::Dynamic(_) => q matches ContentPart::ToolResult(TypedToolResult::Dynamic(r))
                        && r.result_type@ == "tool-result"@ && r.tool_call_id@ == t.tool_call_id@ && r.tool_name@
                        == t.tool_name@ && r.input == input && r.output == t.result && r.provider_executed
                        == Some(true) && r.dynamic && r.preliminary is None,
                }
            }
        },
    }
}

pub open spec fn content_keep(calls: Seq<TypedToolCall<Value>>) -> spec_fn(LanguageModelContent) -> bool {
    |p: LanguageModelContent| content_kept(calls, p)
}

pub open spec fn content_rel(calls: Seq<TypedToolCall<Value>>) -> spec_fn(LanguageModelContent, ContentPart<Value, Value>) -> bool {
    |p: LanguageModelContent, q: ContentPart<Value, Value>| content_part_of(calls, p, q)
}

/// The content part of the output of a tool that the application ran.
pub open spec fn output_part(o: ToolOutput<Value, Value>) -> ContentPart<Value, Value> {
    match o {
        ToolOutput::Result(r) => ContentPart::ToolResult(r),
        ToolOutput::Error(e) => ContentPart::ToolError(e),
    }
}

/// Builds the content of a step: what the model returned, with its tool
/// calls replaced by the parsed calls and the results of tools that the
/// provider ran typed after their calls, followed by the outputs of the
/// tools that the application ran.
pub fn as_content(
    content: Vec<LanguageModelContent>,
    tool_calls: Vec<TypedToolCall<Value>>,
    tool_outputs: Vec<ToolOutput<Value, Value>>,
) -> (r: Vec<ContentPart<Value, Value>>)
    ensures
        exists|conv: Seq<ContentPart<Value, Value>>|
            {
                &&& filter_map_rel(content@, conv, content_keep(tool_calls@), content_rel(tool_calls@))
                &&& r@ == conv + tool_outputs@.map_values(|o: ToolOutput<Value, Value>| output_part(o))
            },
{
    let ghost calls = tool_calls@;
    let ghost all = content@;
    let mut result: Vec<ContentPart<Value, Value>> = Vec::new();
    for part in it: content
        invariant
            it.seq() == all,
            calls == tool_calls@,
            filter_map_rel(all.take(it.index() as int), result@, content_keep(calls), content_rel(calls)),
    {
        let ghost i = it.index() as int;
        let ghost before = result@;
        let ghost pv = part;
        assert(all.take(i + 1) =~= all.take(i).push(part));
        let q: Option<ContentPart<Value, Value>> = match part {
            LanguageModelContent::Text { text } => Some(ContentPart::Text(TextOutput::new(text))),
            LanguageModelContent::Reasoning { text } => Some(ContentPart::Reasoning(ReasoningOutput::new(text))),
            LanguageModelContent::Source(source) => Some(ContentPart::Source(SourceOutput::new(source))),
            LanguageModelContent::File(_) => None,
            LanguageModelContent::ToolCall(t) => match find_call_exec(&tool_calls, t.tool_call_id.as_str()) {
                Some(k) => {
                    Some(ContentPart::ToolCall(copy_call(&tool_calls[k])))
                },
                None => None,
            },
            LanguageModelContent::ToolResult(t) => match find_call_exec(&tool_calls, t.tool_call_id.as_str()) {
                Some(k) => {
                    let (input, is_dynamic) = match &tool_calls[k] {
                        TypedToolCall::Static(c) => (c.input.clone(), false),
                        TypedToolCall::Dynamic(c) => (c.input.clone(), true),
                    };
                    assert(k == find_call(calls, t.tool_call_id@)->0);
                    if t.is_error == Some(true) {
                        if is_dynamic {
                            Some(ContentPart::ToolError(TypedToolError::Dynamic(
                                DynamicToolError::new(t.tool_call_id.as_str(), t.tool_name.as_str(), input, t.result)
                                    .with_provider_executed(true),
                            )))
                        } else {
                            Some(ContentPart::ToolError(TypedToolError::Static(
                                StaticToolError::new(t.tool_call_id.as_str(), t.tool_name.as_str(), input, t.result)
                                    .with_provider_executed(true),
                            )))
                        }
                    } else {
                        if is_dynamic {
                            Some(ContentPart::ToolResult(TypedToolResult::Dynamic(
                                DynamicToolResult::new(t.tool_call_id.as_str(), t.tool_name.as_str(), input, t.result)
                                    .with_provider_executed(true),
                            )))
                        } else {
                            Some(ContentPart::ToolResult(TypedToolResult::Static(
                                StaticToolResult::new(t.tool_call_id.as_str(), t.tool_name.as_str(), input, t.result)
                                    .with_provider_executed(true),
                            )))
                        }
                    }
                },
                None => None,
            },
        };
        match q {
            Some(q) => {
                proof {
                    lemma_filter_map_push(all.take(i), before, content_keep(calls), content_rel(calls), pv, q);
                }
                result.push(q);
            },
            None => {
                proof {
                    lemma_filter_map_push(all.take(i), before, content_keep(calls), content_rel(calls), pv, arbitrary());
                }
            },
        }
    }
    assert(all.take(all.len() as int) =~= all);
    let ghost conv = result@;
    let ghost outs = tool_outputs@;
    for output in it: tool_outputs
        invariant
            it.seq() == outs,
            result@ == conv + outs.take(it.index() as int).map_values(|o: ToolOutput<Value, Value>| output_part(o)),
    {
        let ghost i = it.index() as int;
        assert(outs.take(i + 1) =~= outs.take(i).push(output));
        let p = match output {
            ToolOutput::Result(r) => ContentPart::ToolResult(r),
            ToolOutput::Error(e) => ContentPart::ToolError(e),
        };
        result.push(p);
        assert(result@ =~= conv + outs.take(i + 1).map_values(|o: ToolOutput<Value, Value>| output_part(o)));
    }
    assert(outs.take(outs.len() as int) =~= outs);
    result
}

} // verus!

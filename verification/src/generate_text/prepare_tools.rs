use super::parse_tool_call::same_metadata;
use crate::provider::{LanguageModelTool, LanguageModelToolChoice, ProviderMetadata};
use crate::tool::{Tool, ToolSet, ToolType};
use vstd::prelude::*;

verus! {

/// `b` holds the same text as `a`, or both hold none.
pub open spec fn same_text(a: Option<String>, b: Option<String>) -> bool {
    match (a, b) {
        (Some(x), Some(y)) => x@ == y@,
        (None, None) => true,
        _ => false,
    }
}

/// How a named tool of the tool set is offered to the provider: function
/// and dynamic tools as function tools, provider-defined tools under the
/// name they have in the set.
pub open spec fn provider_tool_of(name: String, tool: Tool, p: LanguageModelTool) -> bool {
    match tool.tool_type {
        ToolType::ProviderDefined { id, args, .. } => p matches LanguageModelTool::ProviderDefined {
            id: i,
            name: n,
            args: a,
        } && i@ == id@ && n@ == name@ && a@ == args@,
        _ => p matches LanguageModelTool::Function { name: n, description: d, input_schema: s, provider_options: o }
            && n@ == name@ && same_text(d, tool.description) && s == tool.input_schema && same_metadata(
            o,
            tool.provider_options,
        ),
    }
}

fn copy_text(a: &Option<String>) -> (b: Option<String>)
    ensures
        same_text(*a, b),
{
    match a {
        Some(s) => Some(s.clone()),
        None => None,
    }
}

fn copy_metadata(a: &Option<ProviderMetadata>) -> (b: Option<ProviderMetadata>)
    ensures
        same_metadata(*a, b),
{
    match a {
        Some(m) => Some(m.clone()),
        None => None,
    }
}

/// The provider tool for a named tool of the set.
fn convert_tool_to_provider(name: &String, tool: &Tool) -> (p: LanguageModelTool)
    ensures
        provider_tool_of(*name, *tool, p),
{
    match &tool.tool_type {
        ToolType::ProviderDefined { id, args, .. } => LanguageModelTool::ProviderDefined {
            id: id.clone(),
            name: name.clone(),
            args: args.clone(),
        },
        _ => LanguageModelTool::Function {
            name: name.clone(),
            description: copy_text(&tool.description),
            input_schema: tool.input_schema.clone(),
            provider_options: copy_metadata(&tool.provider_options),
        },
    }
}

/// The tools and tool choice that a call offers the provider: nothing when
/// there are no tools; else every tool of the set, in its order, and the
/// given tool choice, `Auto` when none is given.
pub fn prepare_tools_and_tool_choice(tools: Option<&ToolSet>, tool_choice: Option<LanguageModelToolChoice>) -> (r: (
    Option<Vec<LanguageModelTool>>,
    Option<LanguageModelToolChoice>,
))
    ensures
        match tools {
            None => r.0 is None && r.1 is None,
            Some(ts) => if ts.spec_entries().len() == 0 {
                r.0 is None && r.1 is None
            } else {
                &&& r.0 matches Some(v) && v@.len() == ts.spec_entries().len() && forall|i: int|
                    0 <= i < v@.len() ==> provider_tool_of(
                        ts.spec_entries()[i].0,
                        ts.spec_entries()[i].1,
                        #[trigger] v@[i],
                    )
                &&& r.1 == Some(
                    match tool_choice {
                        Some(c) => c,
                        None => LanguageModelToolChoice::Auto,
                    },
                )
            },
        },
{
    let ts = match tools {
        Some(ts) => ts,
        None => return (None, None),
    };
    if ts.is_empty() {
        return (None, None);
    }
    let mut out: Vec<LanguageModelTool> = Vec::new();
    let n = ts.len();
    let mut i: usize = 0;
    while i < n
        invariant
            n == ts.spec_entries().len(),
            i <= n,
            out@.len() == i,
            forall|k: int|
                0 <= k < i ==> provider_tool_of(ts.spec_entries()[k].0, ts.spec_entries()[k].1, #[trigger] out@[k]),
        decreases n - i,
    {
        let (name, tool) = ts.entry(i);
        out.push(convert_tool_to_provider(name, tool));
        i = i + 1;
    }
    let choice = match tool_choice {
        Some(c) => c,
        None => LanguageModelToolChoice::Auto,
    };
    (Some(out), Some(choice))
}

} // verus!

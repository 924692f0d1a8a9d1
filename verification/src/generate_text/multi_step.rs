use super::content::ContentPart;
use super::parse_tool_call::{parse_outcome, parse_tool_call};
use super::response::{model_message_of, ResponseMessage};
use super::step_result::StepResult;
use super::tool_types::{call_name_of, call_provider_executed, TypedToolCall};
use crate::error::AISDKError;
use crate::prompt::ModelMessage;
use crate::provider::{
    LanguageModelContent, LanguageModelTool, LanguageModelToolCall, LanguageModelToolChoice, LanguageModelUsage,
};
use crate::tool::{str_eq, ToolSet};
use serde_json::Value;
use vstd::prelude::*;

verus! {

/// The messages that a step sends: the initial messages, followed by the
/// messages that the earlier steps added to the conversation.
pub fn step_input_messages(initial: Vec<ModelMessage>, responses: Vec<ResponseMessage>) -> (r: Vec<
    ModelMessage,
>)
    ensures
        r@ == initial@ + responses@.map_values(|m: ResponseMessage| model_message_of(m)),
{
    let ghost start = initial@;
    let ghost rs = responses@;
    let mut out = initial;
    for m in it: responses
        invariant
            it.seq() == rs,
            out@ == start + rs.take(it.index() as int).map_values(|m: ResponseMessage| model_message_of(m)),
    {
        let ghost i = it.index() as int;
        assert(rs.take(i + 1) =~= rs.take(i).push(m));
        out.push(m.into_model_message());
        assert(out@ =~= start + rs.take(i + 1).map_values(|m: ResponseMessage| model_message_of(m)));
    }
    assert(rs.take(rs.len() as int) =~= rs);
    out
}

/// What a step's preparation may change for that step; `None` keeps what
/// the call was given.
#[derive(Debug, Clone, PartialEq)]
pub struct PrepareStepResult {
    pub system: Option<String>,
    pub messages: Option<Vec<ModelMessage>>,
    pub tool_choice: Option<LanguageModelToolChoice>,
    pub active_tools: Option<Vec<String>>,
}

/// The settings of one step.
#[derive(Debug, Clone, PartialEq)]
pub struct StepSettings {
    pub system: Option<String>,
    pub messages: Vec<ModelMessage>,
    pub tool_choice: Option<LanguageModelToolChoice>,
    pub active_tools: Option<Vec<String>>,
}

/// The first of two options that is `Some`.
pub open spec fn or_else<T>(a: Option<T>, b: Option<T>) -> Option<T> {
    match a {
        Some(x) => Some(x),
        None => b,
    }
}

/// The settings of a step: what the step's preparation gave, where it gave
/// something, else the call's system prompt, the step's input messages and
/// the call's tool choice; only the preparation limits the active tools.
pub fn apply_prepare_step(
    prepared: Option<PrepareStepResult>,
    system: Option<String>,
    step_messages: Vec<ModelMessage>,
    tool_choice: Option<LanguageModelToolChoice>,
) -> (s: StepSettings)
    ensures
        match prepared {
            Some(p) => {
                &&& s.system == or_else(p.system, system)
                &&& s.messages@ == match p.messages {
                    Some(m) => m@,
                    None => step_messages@,
                }
                &&& s.tool_choice == or_else(p.tool_choice, tool_choice)
                &&& s.active_tools == p.active_tools
            },
            None => s.system == system && s.messages@ == step_messages@ && s.tool_choice == tool_choice
                && s.active_tools is None,
        },
{
    match prepared {
        Some(p) => StepSettings {
            system: match p.system {
                Some(x) => Some(x),
                None => system,
            },
            messages: match p.messages {
                Some(m) => m,
                None => step_messages,
            },
            tool_choice: match p.tool_choice {
                Some(c) => Some(c),
                None => tool_choice,
            },
            active_tools: p.active_tools,
        },
        None => StepSettings { system, messages: step_messages, tool_choice, active_tools: None },
    }
}

/// The name under which a provider tool is offered.
pub open spec fn provider_tool_name(t: LanguageModelTool) -> Seq<char> {
    match t {
        LanguageModelTool::Function { name, .. } => name@,
        LanguageModelTool::ProviderDefined { name, .. } => name@,
    }
}

/// The tool is named in `active`.
pub open spec fn is_active(t: LanguageModelTool, active: Seq<String>) -> bool {
    exists|i: int| 0 <= i < active.len() && (#[trigger] active[i])@ == provider_tool_name(t)
}

fn name_listed(name: &String, active: &Vec<String>) -> (b: bool)
    ensures
        b == exists|i: int| 0 <= i < active@.len() && (#[trigger] active@[i])@ == name@,
{
    let n = active.len();
    let mut i: usize = 0;
    while i < n
        invariant
            n == active@.len(),
            i <= n,
            forall|k: int| 0 <= k < i ==> (#[trigger] active@[k])@ != name@,
        decreases n - i,
    {
        if str_eq(active[i].as_str(), name.as_str()) {
            return true;
        }
        i = i + 1;
    }
    false
}

/// The tools offered in a step: those named in `active`, in their order.
pub fn filter_active_tools(tools: Vec<LanguageModelTool>, active: &Vec<String>) -> (r: Vec<LanguageModelTool>)
    ensures
        r@ == tools@.filter(|t: LanguageModelTool| is_active(t, active@)),
{
    let ghost ts = tools@;
    let ghost pred = |t: LanguageModelTool| is_active(t, active@);
    let mut out: Vec<LanguageModelTool> = Vec::new();
    for t in it: tools
        invariant
            it.seq() == ts,
            pred == (|t: LanguageModelTool| is_active(t, active@)),
            out@ == ts.take(it.index() as int).filter(pred),
    {
        let ghost i = it.index() as int;
        assert(ts.take(i + 1).drop_last() =~= ts.take(i));
        let keep = match &t {
            LanguageModelTool::Function { name, .. } => name_listed(name, active),
            LanguageModelTool::ProviderDefined { name, .. } => name_listed(name, active),
        };
        proof {
            assert(ts.take(i + 1) =~= ts.take(i).push(t));
            ts.take(i).lemma_filter_push(t, pred);
        }
        assert(pred(t) == keep);
        if keep {
            out.push(t);
        }
        assert(out@ =~= ts.take(i + 1).filter(pred));
    }
    assert(ts.take(ts.len() as int) =~= ts);
    out
}

/// The tools of a step: all prepared tools, or only the active ones when
/// the step names active tools.
pub fn step_tools(tools: Option<Vec<LanguageModelTool>>, active: &Option<Vec<String>>) -> (r: Option<
    Vec<LanguageModelTool>,
>)
    ensures
        match (tools, active) {
            (Some(ts), Some(a)) => r matches Some(v) && v@ == ts@.filter(
                |t: LanguageModelTool| is_active(t, a@),
            ),
            (ts, None) => r == ts,
            (None, _) => r is None,
        },
{
    match (tools, active) {
        (Some(ts), Some(a)) => Some(filter_active_tools(ts, a)),
        (ts, None) => ts,
        (None, Some(_)) => None,
    }
}

/// The provider's tool call that a content item is, if it is one.
pub open spec fn tool_call_pick() -> spec_fn(LanguageModelContent) -> Option<LanguageModelToolCall> {
    |p: LanguageModelContent|
        match p {
            LanguageModelContent::ToolCall(t) => Some(t),
            _ => None,
        }
}

/// The provider's tool calls among the content, in order.
pub open spec fn tool_call_parts(content: Seq<LanguageModelContent>) -> Seq<LanguageModelToolCall> {
    content.filter_map(tool_call_pick())
}

/// The call parses against the tool set.
pub open spec fn call_parses(tc: LanguageModelToolCall, tools: ToolSet) -> bool {
    exists|c: TypedToolCall<Value>| #[trigger] parse_outcome(tc, tools, Ok(c))
}

/// Every call before the `k`-th parses.
pub open spec fn parses_before(calls: Seq<LanguageModelToolCall>, tools: ToolSet, k: int) -> bool {
    forall|j: int| 0 <= j < k ==> call_parses(#[trigger] calls[j], tools)
}

/// Parsing the calls fails with `e`: every call before some call parses,
/// and that call fails with `e`.
pub open spec fn fails_with(calls: Seq<LanguageModelToolCall>, tools: ToolSet, e: AISDKError) -> bool {
    exists|k: int| 0 <= k < calls.len() && parses_before(calls, tools, k) && #[trigger] parse_outcome(calls[k], tools, Err(e))
}

/// Parses the tool calls that the model returned in a step against the
/// tool set. Without tools there is nothing to parse; otherwise the first
/// call that does not parse fails the step with its error.
pub fn parse_step_tool_calls(content: &Vec<LanguageModelContent>, tools: Option<&ToolSet>) -> (r: Result<
    Vec<TypedToolCall<Value>>,
    AISDKError,
>)
    ensures
        match tools {
            None => r matches Ok(v) && v@.len() == 0,
            Some(ts) => {
                let calls = tool_call_parts(content@);
                match r {
                    Ok(v) => v@.len() == calls.len() && forall|i: int|
                        0 <= i < calls.len() ==> #[trigger] parse_outcome(calls[i], *ts, Ok(v@[i])),
                    Err(e) => fails_with(calls, *ts, e),
                }
            },
        },
{
    let ts = match tools {
        Some(ts) => ts,
        None => return Ok(Vec::new()),
    };
    let ghost all = content@;
    let ghost f = tool_call_pick();
    let mut out: Vec<TypedToolCall<Value>> = Vec::new();
    let n = content.len();
    let mut i: usize = 0;
    while i < n
        invariant
            n == all.len(),
            all == content@,
            i <= n,
            f == tool_call_pick(),
            tools == Some(ts),
            out@.len() == all.take(i as int).filter_map(f).len(),
            forall|j: int|
                0 <= j < out@.len() ==> #[trigger] parse_outcome(all.take(i as int).filter_map(f)[j], *ts, Ok(out@[j])),
        decreases n - i,
    {
        let ghost before = all.take(i as int).filter_map(f);
        assert(all.take(i + 1).drop_last() =~= all.take(i as int));
        match &content[i] {
            LanguageModelContent::ToolCall(tc) => {
                assert(all.take(i + 1).filter_map(f) =~= before + seq![*tc]);
                match parse_tool_call(tc, ts) {
                    Ok(c) => {
                        out.push(c);
                    },
                    Err(e) => {
                        proof {
                            lemma_filter_map_prefix(all, f, i as int + 1);
                            let calls = all.filter_map(f);
                            let k = before.len() as int;
                            let long = all.take(i + 1).filter_map(f);
                            assert(long[k] == *tc);
                            assert(calls[k] == long[k]);
                            assert forall|j: int| 0 <= j < k implies call_parses(#[trigger] calls[j], *ts) by {
                                assert(long[j] == before[j]);
                                assert(calls[j] == long[j]);
                                assert(parse_outcome(before[j], *ts, Ok(out@[j])));
                            }
                            assert(parse_outcome(calls[k], *ts, Err(e)));
                            assert(fails_with(tool_call_parts(content@), *ts, e));
                        }
                        return Err(e);
                    },
                }
            },
            _ => {
                assert(all.take(i + 1).filter_map(f) =~= before);
            },
        }
        i = i + 1;
    }
    assert(all.take(n as int) =~= all);
    Ok(out)
}

/// The calls that a filter-map of a prefix gives are a prefix of those of
/// the whole sequence.
proof fn lemma_filter_map_prefix<A, B>(s: Seq<A>, f: spec_fn(A) -> Option<B>, k: int)
    requires
        0 <= k <= s.len(),
    ensures
        s.take(k).filter_map(f).len() <= s.filter_map(f).len(),
        forall|j: int| 0 <= j < s.take(k).filter_map(f).len() ==> s.filter_map(f)[j] == #[trigger] s.take(k).filter_map(f)[j],
    decreases s.len() - k,
{
    if k < s.len() {
        lemma_filter_map_prefix(s, f, k + 1);
        assert(s.take(k + 1).drop_last() =~= s.take(k));
        assert(s.take(k + 1).last() == s[k]);
        let short = s.take(k).filter_map(f);
        let long = s.take(k + 1).filter_map(f);
        match f(s[k]) {
            Some(x) => {
                assert(long =~= short + seq![x]);
            },
            None => {
                assert(long =~= short);
            },
        }
        assert forall|j: int| 0 <= j < short.len() implies s.filter_map(f)[j] == #[trigger] short[j] by {
            assert(long[j] == short[j]);
        }
    } else {
        assert(s.take(k) =~= s);
    }
}

/// The call is one that the application runs: the provider did not run it.
pub open spec fn is_client_call(c: TypedToolCall<Value>) -> bool {
    call_provider_executed(c) != Some(true)
}

/// The calls that the application runs, in order.
pub fn client_tool_calls(calls: &Vec<TypedToolCall<Value>>) -> (r: Vec<&TypedToolCall<Value>>)
    ensures
        r@.map_values(|c: &TypedToolCall<Value>| *c) == calls@.filter(|c: TypedToolCall<Value>| is_client_call(c)),
{
    let ghost cs = calls@;
    let ghost pred = |c: TypedToolCall<Value>| is_client_call(c);
    let mut out: Vec<&TypedToolCall<Value>> = Vec::new();
    let n = calls.len();
    let mut i: usize = 0;
    while i < n
        invariant
            n == cs.len(),
            cs == calls@,
            i <= n,
            pred == (|c: TypedToolCall<Value>| is_client_call(c)),
            out@.map_values(|c: &TypedToolCall<Value>| *c) == cs.take(i as int).filter(pred),
        decreases n - i,
    {
        assert(cs.take(i + 1).drop_last() =~= cs.take(i as int));
        let c = &calls[i];
        let executed = match c {
            TypedToolCall::Static(s) => s.provider_executed,
            TypedToolCall::Dynamic(d) => d.provider_executed,
        };
        let ghost before = out@;
        proof {
            assert(cs.take(i + 1) =~= cs.take(i as int).push(*c));
            cs.take(i as int).lemma_filter_push(*c, pred);
        }
        assert(pred(*c) == (executed != Some(true)));
        if executed != Some(true) {
            out.push(c);
            assert(out@.map_values(|c: &TypedToolCall<Value>| *c) =~= before.map_values(
                |c: &TypedToolCall<Value>| *c,
            ).push(*c));
        }
        assert(out@.map_values(|c: &TypedToolCall<Value>| *c) =~= cs.take(i + 1).filter(pred));
        i = i + 1;
    }
    assert(cs.take(n as int) =~= cs);
    out
}

/// Whether the loop goes on to another step: it does when the application
/// ran tools, every one of them gave an output, and no stop condition is met.
pub fn should_continue(client_calls: usize, client_outputs: usize, stop_met: bool) -> (b: bool)
    ensures
        b == (client_calls > 0 && client_outputs == client_calls && !stop_met),
{
    client_calls > 0 && client_outputs == client_calls && !stop_met
}

/// When generation stops.
#[derive(Debug, Clone, PartialEq)]
pub enum StopCondition {
    /// After this many steps.
    StepCountIs(usize),
    /// When the last step called the named tool.
    HasToolCall(String),
}

/// The stop condition that holds once `count` steps have run.
pub fn step_count_is(count: usize) -> (c: StopCondition)
    ensures
        c == StopCondition::StepCountIs(count),
{
    StopCondition::StepCountIs(count)
}

/// The stop condition that holds when the last step called `tool_name`.
pub fn has_tool_call(tool_name: &str) -> (c: StopCondition)
    ensures
        c matches StopCondition::HasToolCall(n) && n@ == tool_name@,
{
    StopCondition::HasToolCall(tool_name.to_owned())
}

/// The content part is a call of the named tool.
pub open spec fn is_call_of(p: ContentPart<Value, Value>, name: Seq<char>) -> bool {
    p matches ContentPart::ToolCall(c) && call_name_of(c)@ == name
}

/// The step called the named tool.
pub open spec fn calls_tool(step: StepResult<Value, Value>, name: Seq<char>) -> bool {
    exists|i: int| 0 <= i < step.content@.len() && is_call_of(#[trigger] step.content@[i], name)
}

/// Whether a stop condition holds of the steps so far.
pub open spec fn condition_met(c: StopCondition, steps: Seq<StepResult<Value, Value>>) -> bool {
    match c {
        StopCondition::StepCountIs(n) => steps.len() == n,
        StopCondition::HasToolCall(name) => steps.len() > 0 && calls_tool(steps.last(), name@),
    }
}

/// A "has tool call" condition looks at the last step only: after any
/// earlier steps, it holds exactly when the last step's content holds a call
/// of a tool with that name, static or dynamic; before any step it does not
/// hold. A step-count condition holds exactly when there are that many steps.
pub proof fn lemma_stop_conditions(
    name: String,
    count: usize,
    earlier: Seq<StepResult<Value, Value>>,
    last: StepResult<Value, Value>,
)
    ensures
        condition_met(StopCondition::HasToolCall(name), earlier.push(last)) <==> exists|i: int|
            0 <= i < last.content@.len() && match #[trigger] last.content@[i] {
                ContentPart::ToolCall(TypedToolCall::Static(c)) => c.tool_name@ == name@,
                ContentPart::ToolCall(TypedToolCall::Dynamic(c)) => c.tool_name@ == name@,
                _ => false,
            },
        !condition_met(StopCondition::HasToolCall(name), Seq::empty()),
        condition_met(StopCondition::StepCountIs(count), earlier) <==> earlier.len() == count,
{
    assert(earlier.push(last).last() == last);
}

fn step_calls_tool(step: &StepResult<Value, Value>, name: &str) -> (b: bool)
    ensures
        b == calls_tool(*step, name@),
{
    let n = step.content.len();
    let mut i: usize = 0;
    while i < n
        invariant
            n == step.content@.len(),
            i <= n,
            forall|k: int| 0 <= k < i ==> !is_call_of(#[trigger] step.content@[k], name@),
        decreases n - i,
    {
        match &step.content[i] {
            ContentPart::ToolCall(c) => {
                let called = match c {
                    TypedToolCall::Static(s) => s.tool_name.as_str(),
                    TypedToolCall::Dynamic(d) => d.tool_name.as_str(),
                };
                if str_eq(called, name) {
                    return true;
                }
            },
            _ => {},
        }
        i = i + 1;
    }
    false
}

impl StopCondition {
    /// Whether this condition holds of the steps so far.
    pub fn is_met(&self, steps: &Vec<StepResult<Value, Value>>) -> (b: bool)
        ensures
            b == condition_met(*self, steps@),
    {
        match self {
            StopCondition::StepCountIs(n) => steps.len() == *n,
            StopCondition::HasToolCall(name) => {
                if steps.len() == 0 {
                    false
                } else {
                    step_calls_tool(&steps[steps.len() - 1], name.as_str())
                }
            },
        }
    }
}

/// Whether any of the conditions holds of the steps so far.
pub fn is_stop_condition_met(conditions: &Vec<StopCondition>, steps: &Vec<StepResult<Value, Value>>) -> (b: bool)
    ensures
        b == exists|i: int| 0 <= i < conditions@.len() && condition_met(#[trigger] conditions@[i], steps@),
{
    let n = conditions.len();
    let mut i: usize = 0;
    while i < n
        invariant
            n == conditions@.len(),
            i <= n,
            forall|k: int| 0 <= k < i ==> !condition_met(#[trigger] conditions@[k], steps@),
        decreases n - i,
    {
        if conditions[i].is_met(steps) {
            return true;
        }
        i = i + 1;
    }
    false
}

/// Whether any of the results of the conditions, each asked in turn, holds.
pub fn any_condition_met(results: &Vec<bool>) -> (b: bool)
    ensures
        b == exists|i: int| 0 <= i < results@.len() && #[trigger] results@[i],
{
    let n = results.len();
    let mut i: usize = 0;
    while i < n
        invariant
            n == results@.len(),
            i <= n,
            forall|k: int| 0 <= k < i ==> !#[trigger] results@[k],
        decreases n - i,
    {
        if results[i] {
            return true;
        }
        i = i + 1;
    }
    false
}


/// The token counts of the steps, field by field summed: input, output,
/// total, reasoning and cached input tokens.
pub open spec fn usage_sum(steps: Seq<StepResult<Value, Value>>) -> (int, int, int, int, int)
    decreases steps.len(),
{
    if steps.len() == 0 {
        (0, 0, 0, 0, 0)
    } else {
        let s = usage_sum(steps.drop_last());
        let u = steps.last().usage;
        (
            s.0 + u.input_tokens,
            s.1 + u.output_tokens,
            s.2 + u.total_tokens,
            s.3 + u.reasoning_tokens,
            s.4 + u.cached_input_tokens,
        )
    }
}

/// Every sum fits in a `u64`.
pub open spec fn usage_fits(s: (int, int, int, int, int)) -> bool {
    s.0 <= u64::MAX && s.1 <= u64::MAX && s.2 <= u64::MAX && s.3 <= u64::MAX && s.4 <= u64::MAX
}

/// The sums over a prefix are at most those over the whole sequence.
pub proof fn lemma_usage_sum_prefix(steps: Seq<StepResult<Value, Value>>, k: int)
    requires
        0 <= k <= steps.len(),
    ensures
        usage_sum(steps.take(k)).0 <= usage_sum(steps).0,
        usage_sum(steps.take(k)).1 <= usage_sum(steps).1,
        usage_sum(steps.take(k)).2 <= usage_sum(steps).2,
        usage_sum(steps.take(k)).3 <= usage_sum(steps).3,
        usage_sum(steps.take(k)).4 <= usage_sum(steps).4,
    decreases steps.len() - k,
{
    if k < steps.len() {
        lemma_usage_sum_prefix(steps, k + 1);
        assert(steps.take(k + 1).drop_last() =~= steps.take(k));
    } else {
        assert(steps.take(k) =~= steps);
    }
}

/// The token counts of all steps together.
pub fn total_usage(steps: &Vec<StepResult<Value, Value>>) -> (u: LanguageModelUsage)
    requires
        usage_fits(usage_sum(steps@)),
    ensures
        u.input_tokens == usage_sum(steps@).0,
        u.output_tokens == usage_sum(steps@).1,
        u.total_tokens == usage_sum(steps@).2,
        u.reasoning_tokens == usage_sum(steps@).3,
        u.cached_input_tokens == usage_sum(steps@).4,
{
    let mut acc = LanguageModelUsage {
        input_tokens: 0,
        output_tokens: 0,
        total_tokens: 0,
        reasoning_tokens: 0,
        cached_input_tokens: 0,
    };
    let n = steps.len();
    let mut i: usize = 0;
    while i < n
        invariant
            n == steps@.len(),
            i <= n,
            usage_fits(usage_sum(steps@)),
            acc.input_tokens == usage_sum(steps@.take(i as int)).0,
            acc.output_tokens == usage_sum(steps@.take(i as int)).1,
            acc.total_tokens == usage_sum(steps@.take(i as int)).2,
            acc.reasoning_tokens == usage_sum(steps@.take(i as int)).3,
            acc.cached_input_tokens == usage_sum(steps@.take(i as int)).4,
        decreases n - i,
    {
        proof {
            assert(steps@.take(i + 1).drop_last() =~= steps@.take(i as int));
            lemma_usage_sum_prefix(steps@, i + 1);
        }
        let u = steps[i].usage;
        acc = LanguageModelUsage {
            input_tokens: acc.input_tokens + u.input_tokens,
            output_tokens: acc.output_tokens + u.output_tokens,
            total_tokens: acc.total_tokens + u.total_tokens,
            reasoning_tokens: acc.reasoning_tokens + u.reasoning_tokens,
            cached_input_tokens: acc.cached_input_tokens + u.cached_input_tokens,
        };
        i = i + 1;
    }
    assert(steps@.take(n as int) =~= steps@);
    acc
}

/// The total over the steps after one more step is the total before plus
/// that step's counts.
pub proof fn lemma_usage_sum_push(steps: Seq<StepResult<Value, Value>>, step: StepResult<Value, Value>)
    ensures
        usage_sum(steps.push(step)).0 == usage_sum(steps).0 + step.usage.input_tokens,
        usage_sum(steps.push(step)).1 == usage_sum(steps).1 + step.usage.output_tokens,
        usage_sum(steps.push(step)).2 == usage_sum(steps).2 + step.usage.total_tokens,
        usage_sum(steps.push(step)).3 == usage_sum(steps).3 + step.usage.reasoning_tokens,
        usage_sum(steps.push(step)).4 == usage_sum(steps).4 + step.usage.cached_input_tokens,
{
    assert(steps.push(step).drop_last() =~= steps);
}

} // verus!

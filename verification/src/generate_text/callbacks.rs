use super::as_content::{call_copy, copy_call};
use super::multi_step::{total_usage, usage_fits, usage_sum};
use super::result::all_copied;
use super::step_result::{text_of, tool_calls_of, tool_results_of, StepResult};
use super::tool_types::{TypedToolCall, TypedToolResult};
use crate::provider::{LanguageModelCallWarning, LanguageModelFinishReason, LanguageModelUsage};
use crate::stream_text::single_step::{copy_result, copy_warnings, result_copy, warnings_copy};
use serde_json::Value;
use vstd::prelude::*;

verus! {

/// What the finish callback is told when a generation ends.
#[derive(Debug, Clone)]
pub struct FinishEvent {
    pub text: String,
    pub tool_calls: Vec<TypedToolCall<Value>>,
    pub tool_results: Vec<TypedToolResult<Value, Value>>,
    pub finish_reason: LanguageModelFinishReason,
    pub usage: LanguageModelUsage,
    pub warnings: Option<Vec<LanguageModelCallWarning>>,
    pub steps: Vec<StepResult<Value, Value>>,
    pub total_usage: LanguageModelUsage,
}

impl FinishEvent {
    /// The event for the final step and all steps: the final step's text,
    /// tool calls and results, finish reason, usage and warnings, and the
    /// usage of all steps summed.
    pub fn new(final_step: &StepResult<Value, Value>, all_steps: Vec<StepResult<Value, Value>>) -> (e: Self)
        requires
            usage_fits(usage_sum(all_steps@)),
        ensures
            e.text@ == text_of(final_step.content@),
            all_copied(tool_calls_of(final_step.content@), e.tool_calls@, |a, b| call_copy(a, b)),
            all_copied(tool_results_of(final_step.content@), e.tool_results@, |a, b| result_copy(a, b)),
            e.finish_reason == final_step.finish_reason,
            e.usage == final_step.usage,
            match final_step.warnings {
                Some(w) => e.warnings matches Some(x) && warnings_copy(w@, x@),
                None => e.warnings is None,
            },
            e.steps == all_steps,
            e.total_usage.input_tokens == usage_sum(all_steps@).0,
            e.total_usage.output_tokens == usage_sum(all_steps@).1,
            e.total_usage.total_tokens == usage_sum(all_steps@).2,
            e.total_usage.reasoning_tokens == usage_sum(all_steps@).3,
            e.total_usage.cached_input_tokens == usage_sum(all_steps@).4,
    {
        let total = total_usage(&all_steps);
        let call_refs = final_step.tool_calls();
        let ghost cs = call_refs@.map_values(|x: &TypedToolCall<Value>| *x);
        let mut tool_calls: Vec<TypedToolCall<Value>> = Vec::new();
        let mut i: usize = 0;
        while i < call_refs.len()
            invariant
                cs == call_refs@.map_values(|x: &TypedToolCall<Value>| *x),
                i <= call_refs@.len(),
                tool_calls@.len() == i,
                forall|j: int| 0 <= j < i ==> #[trigger] call_copy(cs[j], tool_calls@[j]),
            decreases call_refs@.len() - i,
        {
            tool_calls.push(copy_call(call_refs[i]));
            i = i + 1;
        }
        let result_refs = final_step.tool_results();
        let ghost rs = result_refs@.map_values(|x: &TypedToolResult<Value, Value>| *x);
        let mut tool_results: Vec<TypedToolResult<Value, Value>> = Vec::new();
        let mut i: usize = 0;
        while i < result_refs.len()
            invariant
                rs == result_refs@.map_values(|x: &TypedToolResult<Value, Value>| *x),
                i <= result_refs@.len(),
                tool_results@.len() == i,
                forall|j: int| 0 <= j < i ==> #[trigger] result_copy(rs[j], tool_results@[j]),
            decreases result_refs@.len() - i,
        {
            tool_results.push(copy_result(result_refs[i]));
            i = i + 1;
        }
        let warnings = match &final_step.warnings {
            Some(w) => Some(copy_warnings(w)),
            None => None,
        };
        FinishEvent {
            text: final_step.text(),
            tool_calls,
            tool_results,
            finish_reason: final_step.finish_reason,
            usage: final_step.usage,
            warnings,
            steps: all_steps,
            total_usage: total,
        }
    }
}

} // verus!

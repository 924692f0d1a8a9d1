use ai_sdk_core::generate_text::callbacks::FinishEvent;
use ai_sdk_core::generate_text::content::{ContentPart, TextOutput};
use ai_sdk_core::generate_text::step_result::{RequestMetadata, StepResponseMetadata, StepResult};
use ai_sdk_core::generate_text::tool_types::{DynamicToolCall, TypedToolCall};
use ai_sdk_core::provider::{LanguageModelFinishReason, LanguageModelUsage};
use serde_json::Value;

fn usage(input: u64, output: u64, reasoning: u64, cached: u64) -> LanguageModelUsage {
    LanguageModelUsage {
        input_tokens: input,
        output_tokens: output,
        total_tokens: input + output,
        reasoning_tokens: reasoning,
        cached_input_tokens: cached,
    }
}

fn step_of(content: Vec<ContentPart>, finish_reason: LanguageModelFinishReason, u: LanguageModelUsage) -> StepResult {
    StepResult::new(
        content,
        finish_reason,
        u,
        None,
        RequestMetadata { body: None },
        StepResponseMetadata { id: None, timestamp: None, model_id: None, body: None },
        None,
    )
}

fn text(t: &str) -> ContentPart {
    ContentPart::Text(TextOutput::new(t.to_string()))
}

fn create_test_step(input_tokens: u64, output_tokens: u64) -> StepResult {
    step_of(vec![text("Test response")], LanguageModelFinishReason::Stop, usage(input_tokens, output_tokens, 0, 0))
}

#[test]
fn test_finish_event_new() {
    let step1 = create_test_step(10, 20);
    let step2 = create_test_step(15, 25);
    let step3 = create_test_step(20, 30);
    let all_steps = vec![step1.clone(), step2.clone(), step3.clone()];
    let event = FinishEvent::new(&step3, all_steps.clone());
    assert_eq!(event.finish_reason, LanguageModelFinishReason::Stop);
    assert_eq!(event.usage.input_tokens, 20);
    assert_eq!(event.usage.output_tokens, 30);
    assert_eq!(event.steps.len(), 3);
    assert_eq!(event.total_usage.input_tokens, 45);
    assert_eq!(event.total_usage.output_tokens, 75);
    assert_eq!(event.total_usage.total_tokens, 120);
}

#[test]
fn test_finish_event_single_step() {
    let step = create_test_step(10, 20);
    let event = FinishEvent::new(&step, vec![step.clone()]);
    assert_eq!(event.steps.len(), 1);
    assert_eq!(event.total_usage.input_tokens, 10);
    assert_eq!(event.total_usage.output_tokens, 20);
    assert_eq!(event.total_usage.total_tokens, 30);
}

#[test]
fn test_finish_event_text_extraction() {
    let step = create_test_step(10, 20);
    let event = FinishEvent::new(&step, vec![step.clone()]);
    assert_eq!(event.text, "Test response");
}

#[test]
fn test_finish_event_with_tool_calls() {
    let content = vec![
        text("Calling tool"),
        ContentPart::ToolCall(TypedToolCall::Dynamic(DynamicToolCall::new(
            "call_1",
            "get_weather",
            serde_json::from_str::<Value>("{}").unwrap(),
        ))),
    ];
    let step = step_of(content, LanguageModelFinishReason::ToolCalls, usage(10, 20, 0, 0));
    let event = FinishEvent::new(&step, vec![step.clone()]);
    assert_eq!(event.tool_calls.len(), 1);
    match &event.tool_calls[0] {
        TypedToolCall::Dynamic(c) => assert_eq!(c.tool_name, "get_weather"),
        other => panic!("unexpected {:?}", other),
    }
    assert_eq!(event.finish_reason, LanguageModelFinishReason::ToolCalls);
}

#[test]
fn test_finish_event_with_reasoning_tokens() {
    let step = step_of(vec![text("Test")], LanguageModelFinishReason::Stop, usage(10, 20, 5, 2));
    let event = FinishEvent::new(&step, vec![step.clone()]);
    assert_eq!(event.total_usage.reasoning_tokens, 5);
    assert_eq!(event.total_usage.cached_input_tokens, 2);
}

#[test]
fn test_finish_event_aggregates_all_usage_fields() {
    let step1 = step_of(vec![text("Step 1")], LanguageModelFinishReason::Stop, usage(10, 20, 3, 1));
    let step2 = step_of(vec![text("Step 2")], LanguageModelFinishReason::Stop, usage(15, 25, 5, 2));
    let event = FinishEvent::new(&step2, vec![step1, step2.clone()]);
    assert_eq!(event.total_usage.input_tokens, 25);
    assert_eq!(event.total_usage.output_tokens, 45);
    assert_eq!(event.total_usage.total_tokens, 70);
    assert_eq!(event.total_usage.reasoning_tokens, 8);
    assert_eq!(event.total_usage.cached_input_tokens, 3);
}

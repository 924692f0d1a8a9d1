use ai_sdk_core::generate_text::step_result::{RequestMetadata, StepResponseMetadata, StepResult};
use ai_sdk_core::generate_text::tool_types::{StaticToolCall, TypedToolCall};
use ai_sdk_core::provider::{LanguageModelFinishReason, LanguageModelUsage};
use ai_sdk_core::stream_text::enriched::EnrichedStreamPart;
use ai_sdk_core::stream_text::event_processor::{ChunkStreamPart, StreamTextAbortEvent, StreamTextFinishEvent};
use ai_sdk_core::stream_text::TextStreamPart;
use serde_json::Value;

fn hello_delta() -> TextStreamPart<Value, Value> {
    TextStreamPart::TextDelta { id: "text1".to_string(), provider_metadata: None, text: "Hello".to_string() }
}

fn usage(input: u64, output: u64) -> LanguageModelUsage {
    LanguageModelUsage {
        input_tokens: input,
        output_tokens: output,
        total_tokens: input + output,
        reasoning_tokens: 0,
        cached_input_tokens: 0,
    }
}

#[test]
fn test_new_enriched_stream_part() {
    let part = hello_delta();
    let enriched = EnrichedStreamPart::new(part.clone());
    assert_eq!(enriched.part, part);
    assert_eq!(enriched.partial_output, None);
}

#[test]
fn test_with_output() {
    let part = hello_delta();
    let output = Value::String("Hello".to_string());
    let enriched = EnrichedStreamPart::with_output(part.clone(), output.clone());
    assert_eq!(enriched.part, part);
    assert_eq!(enriched.partial_output, Some(output));
}

#[test]
fn test_set_partial_output() {
    let mut enriched = EnrichedStreamPart::new(hello_delta());
    assert_eq!(enriched.partial_output, None);
    let output = Value::String("Hello".to_string());
    enriched.set_partial_output(output.clone());
    assert_eq!(enriched.partial_output, Some(output));
}

#[test]
fn test_into_part() {
    let part = hello_delta();
    let enriched = EnrichedStreamPart::new(part.clone());
    let extracted_part = enriched.into_part();
    assert_eq!(extracted_part, part);
}

#[test]
fn test_part_ref() {
    let part = hello_delta();
    let enriched = EnrichedStreamPart::new(part.clone());
    let part_ref = enriched.part_ref();
    assert_eq!(part_ref, &part);
}

#[test]
fn test_partial_output_ref() {
    let output = Value::String("Hello".to_string());
    let enriched = EnrichedStreamPart::with_output(hello_delta(), output.clone());
    let output_ref = enriched.partial_output_ref();
    assert_eq!(output_ref, Some(&output));
}

#[test]
fn test_partial_output_ref_none() {
    let enriched = EnrichedStreamPart::<Value, Value>::new(hello_delta());
    let output_ref = enriched.partial_output_ref();
    assert_eq!(output_ref, None);
}

#[test]
fn test_chunk_from_text_delta() {
    let part = TextStreamPart::<Value, Value>::TextDelta {
        id: "text_1".to_string(),
        provider_metadata: None,
        text: "Hello".to_string(),
    };
    let chunk = ChunkStreamPart::from_stream_part(part);
    assert!(chunk.is_some());
    if let Some(ChunkStreamPart::TextDelta { text, .. }) = chunk {
        assert_eq!(text, "Hello");
    } else {
        panic!("Expected TextDelta chunk");
    }
}

#[test]
fn test_chunk_from_non_chunk_part() {
    let part = TextStreamPart::<Value, Value>::Start;
    let chunk = ChunkStreamPart::from_stream_part(part);
    assert!(chunk.is_none());
}

#[test]
fn test_chunk_from_tool_call() {
    let tool_call = TypedToolCall::Static(StaticToolCall::new(
        "call_123",
        "test_tool",
        serde_json::from_str(r#"{"arg": "value"}"#).unwrap(),
    ));
    let part = TextStreamPart::<Value, Value>::ToolCall { tool_call: tool_call.clone() };
    let chunk = ChunkStreamPart::from_stream_part(part);
    assert!(chunk.is_some());
    if let Some(ChunkStreamPart::ToolCall { tool_call: tc }) = chunk {
        match tc {
            TypedToolCall::Static(sc) => {
                assert_eq!(sc.tool_call_id, "call_123");
                assert_eq!(sc.tool_name, "test_tool");
            }
            _ => panic!("Expected Static tool call"),
        }
    } else {
        panic!("Expected ToolCall chunk");
    }
}

#[test]
fn test_finish_event_creation() {
    let step_result: StepResult<Value, Value> = StepResult::new(
        vec![],
        LanguageModelFinishReason::Stop,
        usage(100, 50),
        None,
        RequestMetadata::default(),
        StepResponseMetadata::default(),
        None,
    );
    let event = StreamTextFinishEvent {
        step_result: step_result.clone(),
        steps: vec![step_result],
        total_usage: usage(100, 50),
    };
    assert_eq!(event.steps.len(), 1);
    assert_eq!(event.total_usage.total_tokens, 150);
}

#[test]
fn test_abort_event_creation() {
    let event = StreamTextAbortEvent::<Value, Value> { steps: vec![] };
    assert_eq!(event.steps.len(), 0);
}

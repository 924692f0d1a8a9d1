use ai_sdk_core::generate_text::content::{ContentPart, GeneratedFile, Output, ReasoningOutput, TextOutput};
use ai_sdk_core::generate_text::response::{to_response_messages, ResponseMessage};
use ai_sdk_core::generate_text::result::{GenerateTextResult, ResponseMetadata};
use ai_sdk_core::generate_text::step_result::{RequestMetadata, StepResponseMetadata, StepResult};
use ai_sdk_core::generate_text::tool_types::{
    DynamicToolCall, DynamicToolResult, StaticToolCall, StaticToolError, StaticToolResult, TypedToolCall,
    TypedToolError, TypedToolResult,
};
use ai_sdk_core::prompt::{
    AssistantModelMessage, ModelMessage, ToolContentPart, ToolModelMessage, ToolResultOutput, ToolResultPart,
};
use ai_sdk_core::provider::{
    LanguageModelCallWarning, LanguageModelFinishReason, LanguageModelResponseMetadata, LanguageModelUsage,
};
use serde_json::Value;

fn json(text: &str) -> Value {
    serde_json::from_str(text).unwrap()
}

fn usage(input: u64, output: u64) -> LanguageModelUsage {
    LanguageModelUsage {
        input_tokens: input,
        output_tokens: output,
        total_tokens: input + output,
        reasoning_tokens: 0,
        cached_input_tokens: 0,
    }
}

fn create_test_step_result() -> StepResult {
    let content = vec![
        ContentPart::Text(TextOutput::new("Hello ".to_string())),
        ContentPart::Text(TextOutput::new("world!".to_string())),
        ContentPart::Reasoning(ReasoningOutput::new("Thinking step 1. ".to_string())),
        ContentPart::Reasoning(ReasoningOutput::new("Thinking step 2.".to_string())),
        ContentPart::ToolCall(TypedToolCall::Dynamic(DynamicToolCall::new(
            "call_1",
            "get_weather",
            json(r#"{"city": "SF"}"#),
        ))),
    ];
    StepResult::new(
        content,
        LanguageModelFinishReason::Stop,
        usage(10, 20),
        None,
        RequestMetadata { body: None },
        StepResponseMetadata {
            id: Some("resp_123".to_string()),
            timestamp: None,
            model_id: Some("gpt-4".to_string()),
            body: None,
        },
        None,
    )
}

fn empty_response() -> StepResponseMetadata {
    StepResponseMetadata { id: None, timestamp: None, model_id: None, body: None }
}

#[test]
fn test_step_result_new() {
    let result = create_test_step_result();
    assert_eq!(result.content.len(), 5);
    assert_eq!(result.finish_reason, LanguageModelFinishReason::Stop);
    assert_eq!(result.usage.input_tokens, 10);
    assert_eq!(result.usage.output_tokens, 20);
    assert_eq!(result.usage.total_tokens, 30);
}

#[test]
fn test_step_result_text() {
    let result = create_test_step_result();
    assert_eq!(result.text(), "Hello world!");
}

#[test]
fn test_step_result_reasoning() {
    let result = create_test_step_result();
    let reasoning = result.reasoning();
    assert_eq!(reasoning.len(), 2);
    assert_eq!(reasoning[0].text, "Thinking step 1. ");
    assert_eq!(reasoning[1].text, "Thinking step 2.");
}

#[test]
fn test_step_result_reasoning_text() {
    let result = create_test_step_result();
    assert_eq!(result.reasoning_text(), Some("Thinking step 1. Thinking step 2.".to_string()));
}

#[test]
fn test_step_result_reasoning_text_empty() {
    let result: StepResult<Value, Value> = StepResult::new(
        vec![ContentPart::Text(TextOutput::new("Hello".to_string()))],
        LanguageModelFinishReason::Stop,
        usage(5, 5),
        None,
        RequestMetadata { body: None },
        empty_response(),
        None,
    );
    assert_eq!(result.reasoning_text(), None);
}

#[test]
fn test_step_result_tool_calls() {
    let result = create_test_step_result();
    let tool_calls = result.tool_calls();
    assert_eq!(tool_calls.len(), 1);
    match &tool_calls[0] {
        TypedToolCall::Dynamic(call) => {
            assert_eq!(call.tool_name, "get_weather");
            assert_eq!(call.tool_call_id, "call_1");
        }
        _ => panic!("Expected dynamic tool call"),
    }
}

#[test]
fn test_step_result_files() {
    let result = create_test_step_result();
    let files = result.files();
    assert_eq!(files.len(), 0);
}

#[test]
fn test_step_result_sources() {
    let result = create_test_step_result();
    let sources = result.sources();
    assert_eq!(sources.len(), 0);
}

#[test]
fn test_step_result_with_warnings() {
    let warnings = vec![LanguageModelCallWarning::UnsupportedSetting {
        setting: "temperature".to_string(),
        details: Some("Temperature not supported".to_string()),
    }];
    let result: StepResult<Value, Value> = StepResult::new(
        vec![],
        LanguageModelFinishReason::Stop,
        usage(0, 0),
        Some(warnings.clone()),
        RequestMetadata { body: None },
        empty_response(),
        None,
    );
    assert!(result.warnings.is_some());
    assert_eq!(result.warnings.as_ref().unwrap().len(), 1);
    match &result.warnings.as_ref().unwrap()[0] {
        LanguageModelCallWarning::UnsupportedSetting { setting, details } => {
            assert_eq!(setting, "temperature");
            assert_eq!(details.as_ref().unwrap(), "Temperature not supported");
        }
        _ => panic!("Expected UnsupportedSetting warning"),
    }
}

#[test]
fn test_step_response_metadata_from_response_metadata() {
    let response_metadata = LanguageModelResponseMetadata {
        id: Some("resp_456".to_string()),
        timestamp: Some(1234567890),
        model_id: Some("gpt-3.5".to_string()),
    };
    let step_response: StepResponseMetadata = response_metadata.into();
    assert_eq!(step_response.id, Some("resp_456".to_string()));
    assert_eq!(step_response.timestamp, Some(1234567890));
    assert_eq!(step_response.model_id, Some("gpt-3.5".to_string()));
    assert_eq!(step_response.body, None);
}

#[test]
fn test_response_metadata_new() {
    let metadata = ResponseMetadata::new(vec![]);
    assert!(metadata.messages.is_empty());
    assert!(metadata.body.is_none());
    assert!(metadata.id.is_none());
    assert!(metadata.model_id.is_none());
}

#[test]
fn test_response_metadata_from_step_metadata() {
    let step_metadata = StepResponseMetadata {
        id: Some("test_id".to_string()),
        model_id: Some("test_model".to_string()),
        timestamp: None,
        body: None,
    };
    let metadata = ResponseMetadata::from_step_metadata(vec![], step_metadata);
    assert!(metadata.messages.is_empty());
    assert!(metadata.body.is_none());
    assert_eq!(metadata.id, Some("test_id".to_string()));
    assert_eq!(metadata.model_id, Some("test_model".to_string()));
}

#[test]
fn test_response_metadata_with_body() {
    let body = json(r#"{"key": "value"}"#);
    let metadata = ResponseMetadata::new(vec![]).with_body(body.clone());
    assert_eq!(metadata.body, Some(body));
}

#[test]
fn test_response_metadata_builder_methods() {
    let metadata = ResponseMetadata::new(vec![])
        .with_id("resp_123".to_string())
        .with_model_id("gpt-4".to_string())
        .with_timestamp(1234567890);
    assert_eq!(metadata.id, Some("resp_123".to_string()));
    assert_eq!(metadata.model_id, Some("gpt-4".to_string()));
    assert_eq!(metadata.timestamp, Some(1234567890));
}

#[test]
fn test_generate_text_result_new() {
    let result: GenerateTextResult<Value, String> = GenerateTextResult::new(
        vec![],
        "Hello".to_string(),
        vec![],
        None,
        Vec::<GeneratedFile>::new(),
        vec![],
        vec![],
        vec![],
        vec![],
        vec![],
        vec![],
        vec![],
        LanguageModelFinishReason::Stop,
        LanguageModelUsage::default(),
        LanguageModelUsage::default(),
        None,
        RequestMetadata::default(),
        ResponseMetadata::new(vec![]),
        None,
        vec![],
        "output".to_string(),
    );
    assert_eq!(result.text, "Hello");
    assert_eq!(result.finish_reason, LanguageModelFinishReason::Stop);
    assert_eq!(result.output, "output");
}

#[test]
fn test_generate_text_result_fields() {
    let result: GenerateTextResult<Value, Value> = GenerateTextResult::new(
        vec![],
        "Generated text".to_string(),
        vec![],
        Some("Reasoning text".to_string()),
        vec![],
        vec![],
        vec![],
        vec![],
        vec![],
        vec![],
        vec![],
        vec![],
        LanguageModelFinishReason::Length,
        LanguageModelUsage::default(),
        LanguageModelUsage::default(),
        None,
        RequestMetadata::default(),
        ResponseMetadata::new(vec![]),
        None,
        vec![],
        json(r#"{"key": "value"}"#),
    );
    assert_eq!(result.text, "Generated text");
    assert_eq!(result.reasoning_text, Some("Reasoning text".to_string()));
    assert_eq!(result.finish_reason, LanguageModelFinishReason::Length);
    assert_eq!(result.output, json(r#"{"key": "value"}"#));
}

#[test]
fn test_generate_text_result_from_steps_with_tool_calls() {
    let content = vec![
        ContentPart::Text(TextOutput::new("Hello".to_string())),
        ContentPart::ToolCall(TypedToolCall::Dynamic(DynamicToolCall::new(
            "call_1",
            "get_weather",
            json(r#"{"city": "SF"}"#),
        ))),
        ContentPart::ToolResult(TypedToolResult::Dynamic(
            DynamicToolResult::new("call_1", "get_weather", json(r#"{"city": "SF"}"#), json(r#"{"temp": 72}"#))
                .with_provider_executed(true),
        )),
    ];
    let step = StepResult::new(
        content,
        LanguageModelFinishReason::Stop,
        usage(10, 20),
        None,
        RequestMetadata { body: None },
        StepResponseMetadata {
            id: Some("resp_123".to_string()),
            timestamp: None,
            model_id: Some("gpt-4".to_string()),
            body: None,
        },
        None,
    );
    let result: GenerateTextResult<Value, Value> =
        GenerateTextResult::from_steps(vec![step], usage(10, 20), json("null"), vec![]);

    assert_eq!(result.tool_calls.len(), 1);
    assert_eq!(result.dynamic_tool_calls.len(), 1);
    assert_eq!(result.static_tool_calls.len(), 0);
    match &result.tool_calls[0] {
        TypedToolCall::Dynamic(call) => {
            assert_eq!(call.tool_call_id, "call_1");
            assert_eq!(call.tool_name, "get_weather");
            assert_eq!(call.input, json(r#"{"city": "SF"}"#));
        }
        _ => panic!("Expected dynamic tool call"),
    }
    assert_eq!(result.tool_results.len(), 1);
    assert_eq!(result.dynamic_tool_results.len(), 1);
    assert_eq!(result.static_tool_results.len(), 0);
    match &result.tool_results[0] {
        TypedToolResult::Dynamic(res) => {
            assert_eq!(res.tool_call_id, "call_1");
            assert_eq!(res.tool_name, "get_weather");
            assert_eq!(res.input, json(r#"{"city": "SF"}"#));
            assert_eq!(res.output, json(r#"{"temp": 72}"#));
            assert_eq!(res.provider_executed, Some(true));
        }
        _ => panic!("Expected dynamic tool result"),
    }
}

#[test]
fn test_response_message_from_assistant() {
    let assistant_msg = AssistantModelMessage::new("Hello");
    let response = ResponseMessage::from_assistant(assistant_msg.clone());
    assert!(response.is_assistant());
    assert!(!response.is_tool());
    assert_eq!(response.as_assistant(), Some(&assistant_msg));
    assert_eq!(response.as_tool(), None);
}

#[test]
fn test_response_message_from_tool() {
    let tool_msg = ToolModelMessage::new(vec![ToolContentPart::ToolResult(ToolResultPart::new(
        "call_123",
        "tool_name",
        ToolResultOutput::text("Tool result"),
    ))]);
    let response = ResponseMessage::from_tool(tool_msg.clone());
    assert!(response.is_tool());
    assert!(!response.is_assistant());
    assert_eq!(response.as_tool(), Some(&tool_msg));
    assert_eq!(response.as_assistant(), None);
}

#[test]
fn test_response_message_assistant_variant() {
    let assistant_msg = AssistantModelMessage::new("Test message");
    let response = ResponseMessage::Assistant(assistant_msg.clone());
    match response {
        ResponseMessage::Assistant(msg) => assert_eq!(msg, assistant_msg),
        _ => panic!("Expected Assistant variant"),
    }
}

#[test]
fn test_response_message_tool_variant() {
    let tool_msg = ToolModelMessage::new(vec![]);
    let response = ResponseMessage::Tool(tool_msg.clone());
    match response {
        ResponseMessage::Tool(msg) => assert_eq!(msg, tool_msg),
        _ => panic!("Expected Tool variant"),
    }
}

#[test]
fn test_response_message_clone() {
    let response = ResponseMessage::from_assistant(AssistantModelMessage::new("Test"));
    let cloned = response.clone();
    assert_eq!(response, cloned);
}

#[test]
fn test_from_model_message_assistant() {
    let assistant_msg = AssistantModelMessage::new("Hello");
    let model_msg = ModelMessage::Assistant(assistant_msg.clone());
    let response = ResponseMessage::from_model_message(model_msg);
    assert!(response.is_assistant());
    assert_eq!(response.as_assistant(), Some(&assistant_msg));
}

#[test]
fn test_from_model_message_tool() {
    let tool_msg = ToolModelMessage::new(vec![]);
    let model_msg = ModelMessage::Tool(tool_msg.clone());
    let response = ResponseMessage::from_model_message(model_msg);
    assert!(response.is_tool());
    assert_eq!(response.as_tool(), Some(&tool_msg));
}

#[test]
fn test_to_response_messages_empty() {
    let messages = to_response_messages(vec![], vec![]);
    assert!(messages.is_empty());
}

#[test]
fn test_to_response_messages_text_only() {
    let messages = to_response_messages(vec![ContentPart::Text(TextOutput::new("Hello, world!".to_string()))], vec![]);
    assert_eq!(messages.len(), 1);
    match &messages[0] {
        ModelMessage::Assistant(_) => assert_eq!(messages[0].role(), "assistant"),
        _ => panic!("Expected assistant message"),
    }
}

#[test]
fn test_to_response_messages_filters_empty_text() {
    let content = vec![
        ContentPart::Text(TextOutput::new("".to_string())),
        ContentPart::Text(TextOutput::new("Hello".to_string())),
    ];
    let messages = to_response_messages(content, vec![]);
    assert_eq!(messages.len(), 1);
}

#[test]
fn test_to_response_messages_with_reasoning() {
    let content = vec![
        ContentPart::Reasoning(ReasoningOutput::new("Thinking...".to_string())),
        ContentPart::Text(TextOutput::new("Answer".to_string())),
    ];
    let messages = to_response_messages(content, vec![]);
    assert_eq!(messages.len(), 1);
    match &messages[0] {
        ModelMessage::Assistant(_) => assert_eq!(messages[0].role(), "assistant"),
        _ => panic!("Expected assistant message"),
    }
}

#[test]
fn test_to_response_messages_with_tool_call() {
    let tool_call = StaticToolCall::new("call_1", "test_tool", json(r#"{"arg": "value"}"#));
    let messages = to_response_messages(vec![ContentPart::ToolCall(TypedToolCall::Static(tool_call))], vec![]);
    assert_eq!(messages.len(), 1);
    match &messages[0] {
        ModelMessage::Assistant(_) => assert_eq!(messages[0].role(), "assistant"),
        _ => panic!("Expected assistant message"),
    }
}

#[test]
fn test_to_response_messages_provider_executed_tool_result() {
    let tool_result =
        StaticToolResult::new("call_1", "test_tool", json(r#"{"arg": "value"}"#), json(r#"{"result": "success"}"#))
            .with_provider_executed(true);
    let messages = to_response_messages(vec![ContentPart::ToolResult(TypedToolResult::Static(tool_result))], vec![]);
    assert_eq!(messages.len(), 1);
    match &messages[0] {
        ModelMessage::Assistant(_) => {}
        _ => panic!("Expected assistant message"),
    }
}

#[test]
fn test_to_response_messages_client_executed_tool_result() {
    let tool_result =
        StaticToolResult::new("call_1", "test_tool", json(r#"{"arg": "value"}"#), json(r#"{"result": "success"}"#));
    let messages = to_response_messages(vec![ContentPart::ToolResult(TypedToolResult::Static(tool_result))], vec![]);
    assert_eq!(messages.len(), 1);
    match &messages[0] {
        ModelMessage::Tool(_) => {}
        _ => panic!("Expected tool message"),
    }
}

#[test]
fn test_to_response_messages_client_executed_tool_error() {
    let tool_error =
        StaticToolError::new("call_1", "test_tool", json(r#"{"arg": "value"}"#), json(r#"{"error": "failed"}"#));
    let messages = to_response_messages(vec![ContentPart::ToolError(TypedToolError::Static(tool_error))], vec![]);
    assert_eq!(messages.len(), 1);
    match &messages[0] {
        ModelMessage::Tool(_) => {}
        _ => panic!("Expected tool message"),
    }
}

#[test]
fn test_to_response_messages_mixed_content() {
    let tool_call = StaticToolCall::new("call_1", "test_tool", json(r#"{"arg": "value"}"#));
    let tool_result =
        StaticToolResult::new("call_1", "test_tool", json(r#"{"arg": "value"}"#), json(r#"{"result": "success"}"#));
    let content = vec![
        ContentPart::Text(TextOutput::new("Before call".to_string())),
        ContentPart::ToolCall(TypedToolCall::Static(tool_call)),
        ContentPart::ToolResult(TypedToolResult::Static(tool_result)),
    ];
    let messages = to_response_messages(content, vec![]);
    assert_eq!(messages.len(), 2);
    match &messages[0] {
        ModelMessage::Assistant(_) => {}
        _ => panic!("Expected assistant message first"),
    }
    match &messages[1] {
        ModelMessage::Tool(_) => {}
        _ => panic!("Expected tool message second"),
    }
}

#[test]
fn test_content_part_text() {
    let part: Output<Value, Value> = Output::Text(TextOutput::new("Hello, world!".to_string()));
    assert!(part.is_text());
    assert!(!part.is_reasoning());
    assert!(!part.is_tool_call());
}

#[test]
fn test_content_part_reasoning() {
    let part: Output<Value, Value> = Output::Reasoning(ReasoningOutput::new("Let me think...".to_string()));
    assert!(part.is_reasoning());
    assert!(!part.is_text());
    assert!(!part.is_tool_call());
}

#[test]
fn test_content_part_tool_call() {
    let call = StaticToolCall::new("call_1", "tool", json("{}"));
    let part: Output<Value, Value> = Output::ToolCall(TypedToolCall::Static(call));
    assert!(part.is_tool_call());
    assert!(!part.is_text());
    assert!(!part.is_tool_result());
}

#[test]
fn test_content_part_tool_result() {
    let result = StaticToolResult::new("call_1", "tool", json("{}"), json("{}"));
    let part: Output<Value, Value> = Output::ToolResult(TypedToolResult::Static(result));
    assert!(part.is_tool_result());
    assert!(!part.is_tool_error());
    assert!(!part.is_tool_call());
}

#[test]
fn test_content_part_tool_error() {
    let error = StaticToolError::new("call_1", "tool", json("{}"), json(r#"{"error": "failed"}"#));
    let part: Output<Value, Value> = Output::ToolError(TypedToolError::Static(error));
    assert!(part.is_tool_error());
    assert!(!part.is_tool_result());
    assert!(!part.is_tool_call());
}

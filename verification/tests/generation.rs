use ai_sdk_core::convert::{combine_consecutive_tool_messages, convert_to_language_model_prompt};
use ai_sdk_core::error::AISDKError;
use ai_sdk_core::generate_text::as_content::as_content;
use ai_sdk_core::generate_text::callbacks::FinishEvent;
use ai_sdk_core::generate_text::content::{ContentPart, ReasoningOutput, TextOutput};
use ai_sdk_core::generate_text::multi_step::{
    any_condition_met, apply_prepare_step, client_tool_calls, filter_active_tools, has_tool_call,
    is_stop_condition_met, parse_step_tool_calls, should_continue, step_count_is, step_input_messages,
    step_tools, total_usage, PrepareStepResult, StopCondition,
};
use ai_sdk_core::generate_text::parse_tool_call::parse_tool_call;
use ai_sdk_core::generate_text::prepare_tools::prepare_tools_and_tool_choice;
use ai_sdk_core::generate_text::response::{create_tool_model_output, to_response_messages, ErrorMode, ResponseMessage};
use ai_sdk_core::generate_text::result::{GenerateTextResult, ResponseMetadata};
use ai_sdk_core::generate_text::step_result::{RequestMetadata, StepResponseMetadata, StepResult};
use ai_sdk_core::generate_text::tool_types::{
    DynamicToolCall, StaticToolCall, StaticToolError, StaticToolResult, ToolOutput, TypedToolCall, TypedToolError,
    TypedToolResult,
};
use ai_sdk_core::prompt::{
    AssistantContent, AssistantContentPart, AssistantModelMessage, ModelMessage, StandardizedPrompt,
    ToolContentPart, ToolModelMessage, ToolResultOutput, ToolResultPart, UserModelMessage,
};
use ai_sdk_core::provider::{
    AssistantMessagePart, LanguageModelContent, LanguageModelFinishReason, LanguageModelMessage, LanguageModelTool,
    LanguageModelToolCall, LanguageModelToolChoice, LanguageModelToolResult, LanguageModelToolResultOutput,
    LanguageModelToolResultPart,
    LanguageModelUsage, UserMessagePart,
};
use ai_sdk_core::tool::{is_approval_needed, Tool, ToolSet};
use serde_json::Value;

fn usage(input: u64, output: u64) -> LanguageModelUsage {
    LanguageModelUsage {
        input_tokens: input,
        output_tokens: output,
        total_tokens: input + output,
        reasoning_tokens: 0,
        cached_input_tokens: 0,
    }
}

fn step(content: Vec<ContentPart<Value, Value>>, u: LanguageModelUsage) -> StepResult<Value, Value> {
    StepResult::new(
        content,
        LanguageModelFinishReason::Stop,
        u,
        None,
        RequestMetadata { body: None },
        StepResponseMetadata { id: Some("r1".to_string()), timestamp: Some(7), model_id: Some("m".to_string()), body: None },
        None,
    )
}

fn weather_schema() -> Value {
    serde_json::from_str(r#"{"type":"object","properties":{"city":{"type":"string"}},"required":["city"]}"#).unwrap()
}

fn weather_tools() -> ToolSet {
    let mut tools = ToolSet::new();
    tools.insert("get_weather".to_string(), Tool::function(weather_schema()).with_description("Weather"));
    tools
}

fn provider_call(id: &str, name: &str, input: &str) -> LanguageModelToolCall {
    LanguageModelToolCall {
        tool_call_id: id.to_string(),
        tool_name: name.to_string(),
        input: input.to_string(),
        provider_executed: None,
        provider_metadata: None,
    }
}

fn json(text: &str) -> Value {
    serde_json::from_str(text).unwrap()
}

#[test]
fn parse_tool_call_accepts_valid_input() {
    let tools = weather_tools();
    let call = parse_tool_call(&provider_call("c1", "get_weather", r#"{"city":"Paris"}"#), &tools).unwrap();
    match call {
        TypedToolCall::Static(c) => {
            assert_eq!(c.tool_call_id, "c1");
            assert_eq!(c.tool_name, "get_weather");
            assert_eq!(c.input, json(r#"{"city":"Paris"}"#));
            assert_eq!(c.call_type, "tool-call");
        }
        other => panic!("unexpected {:?}", other),
    }
}

#[test]
fn parse_tool_call_rejects_input_that_breaks_the_schema() {
    let tools = weather_tools();
    match parse_tool_call(&provider_call("c1", "get_weather", r#"{"town":"Paris"}"#), &tools) {
        Err(AISDKError::InvalidToolInput { tool_name, message, .. }) => {
            assert_eq!(tool_name, "get_weather");
            assert!(message.contains("city"));
        }
        other => panic!("unexpected {:?}", other),
    }
}

#[test]
fn parse_tool_call_rejects_bad_json() {
    let tools = weather_tools();
    match parse_tool_call(&provider_call("c1", "get_weather", "{not json"), &tools) {
        Err(AISDKError::InvalidToolInput { tool_input, message, .. }) => {
            assert_eq!(tool_input, "{not json");
            assert!(message.starts_with("Failed to parse JSON: "));
        }
        other => panic!("unexpected {:?}", other),
    }
}

#[test]
fn parse_tool_call_treats_blank_input_as_empty_object() {
    let mut tools = ToolSet::new();
    tools.insert("ping".to_string(), Tool::function(json(r#"{"type":"object"}"#)));
    match parse_tool_call(&provider_call("c9", "ping", "  "), &tools).unwrap() {
        TypedToolCall::Static(c) => assert_eq!(c.input, json("{}")),
        other => panic!("unexpected {:?}", other),
    }
}

#[test]
fn parse_tool_call_unknown_tool() {
    let tools = weather_tools();
    match parse_tool_call(&provider_call("c1", "search", "{}"), &tools) {
        Err(e @ AISDKError::NoSuchTool { .. }) => {
            assert_eq!(e.to_string(), "No such tool: 'search'. Available tools: [\"get_weather\"]");
        }
        other => panic!("unexpected {:?}", other),
    }
}

#[test]
fn parse_tool_call_provider_executed_unknown_tool_is_dynamic() {
    let tools = weather_tools();
    let mut call = provider_call("c2", "web_search", r#"{"q":"rust"}"#);
    call.provider_executed = Some(true);
    match parse_tool_call(&call, &tools).unwrap() {
        TypedToolCall::Dynamic(d) => {
            assert!(d.dynamic);
            assert_eq!(d.provider_executed, Some(true));
            assert_eq!(d.input, json(r#"{"q":"rust"}"#));
        }
        other => panic!("unexpected {:?}", other),
    }
}

#[test]
fn parse_tool_call_dynamic_tool() {
    let mut tools = ToolSet::new();
    tools.insert("any".to_string(), Tool::dynamic(json(r#"{"type":"object"}"#)));
    match parse_tool_call(&provider_call("c3", "any", r#"{"a":1}"#), &tools).unwrap() {
        TypedToolCall::Dynamic(d) => assert_eq!(d.tool_name, "any"),
        other => panic!("unexpected {:?}", other),
    }
}

#[test]
fn tool_set_insert_replaces_in_place() {
    let mut tools = ToolSet::new();
    assert!(tools.is_empty());
    tools.insert("a".to_string(), Tool::function(json("{}")));
    tools.insert("b".to_string(), Tool::dynamic(json("{}")));
    tools.insert("a".to_string(), Tool::dynamic(json("{}")));
    assert_eq!(tools.len(), 2);
    assert_eq!(tools.names(), vec!["a".to_string(), "b".to_string()]);
    assert!(tools.get("a").unwrap().is_dynamic());
    assert!(tools.get("c").is_none());
}

#[test]
fn approval_is_settled_by_the_tool() {
    assert_eq!(is_approval_needed(&Tool::function(json("{}"))), Some(false));
    assert_eq!(is_approval_needed(&Tool::function(json("{}")).with_needs_approval(true)), Some(true));
    assert_eq!(is_approval_needed(&Tool::function(json("{}")).with_needs_approval_function()), None);
}

#[test]
fn prepare_tools_offers_every_tool_and_defaults_to_auto() {
    let tools = weather_tools();
    let (provider_tools, choice) = prepare_tools_and_tool_choice(Some(&tools), None);
    let provider_tools = provider_tools.unwrap();
    assert_eq!(provider_tools.len(), 1);
    match &provider_tools[0] {
        LanguageModelTool::Function { name, description, input_schema, .. } => {
            assert_eq!(name, "get_weather");
            assert_eq!(description.as_deref(), Some("Weather"));
            assert_eq!(input_schema, &weather_schema());
        }
        other => panic!("unexpected {:?}", other),
    }
    assert_eq!(choice, Some(LanguageModelToolChoice::Auto));
    let (none, no_choice) = prepare_tools_and_tool_choice(Some(&ToolSet::new()), Some(LanguageModelToolChoice::Required));
    assert!(none.is_none() && no_choice.is_none());
    let (_, kept) = prepare_tools_and_tool_choice(Some(&tools), Some(LanguageModelToolChoice::Required));
    assert_eq!(kept, Some(LanguageModelToolChoice::Required));
}

#[test]
fn active_tools_filter_keeps_order() {
    let tools = vec![
        LanguageModelTool::Function { name: "a".into(), description: None, input_schema: json("{}"), provider_options: None },
        LanguageModelTool::Function { name: "b".into(), description: None, input_schema: json("{}"), provider_options: None },
        LanguageModelTool::Function { name: "c".into(), description: None, input_schema: json("{}"), provider_options: None },
    ];
    let kept = filter_active_tools(tools.clone(), &vec!["c".to_string(), "a".to_string()]);
    assert_eq!(kept, vec![tools[0].clone(), tools[2].clone()]);
    assert_eq!(step_tools(Some(tools.clone()), &None), Some(tools.clone()));
    assert_eq!(step_tools(None, &Some(vec!["a".to_string()])), None);
}

#[test]
fn prepare_step_overrides_only_what_it_gives() {
    let initial = vec![ModelMessage::from(UserModelMessage::new("hi"))];
    let settings = apply_prepare_step(None, Some("sys".into()), initial.clone(), Some(LanguageModelToolChoice::Auto));
    assert_eq!(settings.system.as_deref(), Some("sys"));
    assert_eq!(settings.messages, initial);
    assert_eq!(settings.active_tools, None);
    let prepared = PrepareStepResult {
        system: None,
        messages: None,
        tool_choice: Some(LanguageModelToolChoice::NoTools),
        active_tools: Some(vec!["x".into()]),
    };
    let settings = apply_prepare_step(Some(prepared), Some("sys".into()), initial.clone(), None);
    assert_eq!(settings.system.as_deref(), Some("sys"));
    assert_eq!(settings.tool_choice, Some(LanguageModelToolChoice::NoTools));
    assert_eq!(settings.active_tools, Some(vec!["x".to_string()]));
}

#[test]
fn step_input_messages_append_the_responses() {
    let initial = vec![ModelMessage::from(UserModelMessage::new("hi"))];
    let responses = vec![
        ResponseMessage::from_assistant(AssistantModelMessage::new("hello")),
        ResponseMessage::from_tool(ToolModelMessage::new(vec![])),
    ];
    let messages = step_input_messages(initial, responses);
    assert_eq!(messages.len(), 3);
    assert!(messages[0].is_user() && messages[1].is_assistant() && messages[2].is_tool());
}

#[test]
fn parse_step_tool_calls_without_tools_is_empty() {
    let content = vec![LanguageModelContent::ToolCall(provider_call("c1", "x", "{}"))];
    assert_eq!(parse_step_tool_calls(&content, None).unwrap().len(), 0);
}

#[test]
fn parse_step_tool_calls_stops_at_the_first_failure() {
    let tools = weather_tools();
    let content = vec![
        LanguageModelContent::Text { text: "x".into() },
        LanguageModelContent::ToolCall(provider_call("c1", "get_weather", r#"{"city":"A"}"#)),
        LanguageModelContent::ToolCall(provider_call("c2", "nope", "{}")),
    ];
    match parse_step_tool_calls(&content, Some(&tools)) {
        Err(AISDKError::NoSuchTool { tool_name, .. }) => assert_eq!(tool_name, "nope"),
        other => panic!("unexpected {:?}", other),
    }
    let ok = parse_step_tool_calls(&content[..2].to_vec(), Some(&tools)).unwrap();
    assert_eq!(ok.len(), 1);
}

#[test]
fn client_calls_leave_out_provider_executed_ones() {
    let calls = vec![
        TypedToolCall::Static(StaticToolCall::new("a", "t", json("{}"))),
        TypedToolCall::Static(StaticToolCall::new("b", "t", json("{}")).with_provider_executed(true)),
        TypedToolCall::Dynamic(DynamicToolCall::new("c", "t", json("{}")).with_provider_executed(false)),
    ];
    let client = client_tool_calls(&calls);
    assert_eq!(client.len(), 2);
    assert_eq!(client[0], &calls[0]);
    assert_eq!(client[1], &calls[2]);
}

#[test]
fn loop_goes_on_only_when_all_client_tools_answered() {
    assert!(should_continue(2, 2, false));
    assert!(!should_continue(2, 1, false));
    assert!(!should_continue(0, 0, false));
    assert!(!should_continue(1, 1, true));
}

#[test]
fn stop_conditions() {
    let call = TypedToolCall::Static(StaticToolCall::new("a", "finish", json("{}")));
    let steps = vec![step(vec![ContentPart::ToolCall(call)], usage(1, 1))];
    assert!(step_count_is(1).is_met(&steps));
    assert!(!step_count_is(2).is_met(&steps));
    assert!(has_tool_call("finish").is_met(&steps));
    assert!(!has_tool_call("other").is_met(&steps));
    assert!(!has_tool_call("finish").is_met(&vec![]));
    assert!(is_stop_condition_met(&vec![step_count_is(5), has_tool_call("finish")], &steps));
    assert!(!is_stop_condition_met(&vec![], &steps));
    assert_eq!(step_count_is(3), StopCondition::StepCountIs(3));
    assert!(any_condition_met(&vec![false, true]));
    assert!(!any_condition_met(&vec![false, false]));
}

#[test]
fn total_usage_sums_every_step() {
    let steps = vec![step(vec![], usage(10, 20)), step(vec![], usage(15, 25)), step(vec![], usage(20, 30))];
    let total = total_usage(&steps);
    assert_eq!(total.input_tokens, 45);
    assert_eq!(total.output_tokens, 75);
    assert_eq!(total.total_tokens, 120);
    assert_eq!(total_usage(&vec![]).input_tokens, 0);
}

#[test]
fn finish_event_takes_the_final_step() {
    let s1 = step(vec![ContentPart::Text(TextOutput::new("a".into()))], usage(10, 20));
    let s3 = step(vec![ContentPart::Text(TextOutput::new("done".into()))], usage(20, 30));
    let event = FinishEvent::new(&s3, vec![s1, s3.clone()]);
    assert_eq!(event.text, "done");
    assert_eq!(event.usage.input_tokens, 20);
    assert_eq!(event.total_usage.input_tokens, 30);
    assert_eq!(event.total_usage.output_tokens, 50);
    assert_eq!(event.steps.len(), 2);
}

#[test]
fn as_content_replaces_calls_and_appends_outputs() {
    let call = TypedToolCall::Static(StaticToolCall::new("c1", "get_weather", json(r#"{"city":"A"}"#)));
    let provider_result = LanguageModelToolResult {
        tool_call_id: "c1".into(),
        tool_name: "get_weather".into(),
        result: json("12"),
        is_error: None,
        provider_executed: Some(true),
        provider_metadata: None,
    };
    let content = vec![
        LanguageModelContent::Text { text: "Looking".into() },
        LanguageModelContent::ToolCall(provider_call("c1", "get_weather", r#"{"city":"A"}"#)),
        LanguageModelContent::ToolCall(provider_call("zz", "unknown", "{}")),
        LanguageModelContent::ToolResult(provider_result),
    ];
    let output = ToolOutput::Error(TypedToolError::Static(StaticToolError::new("c9", "t", json("1"), json("\"bad\""))));
    let parts = as_content(content, vec![call.clone()], vec![output.clone()]);
    assert_eq!(parts.len(), 4);
    assert_eq!(parts[0], ContentPart::Text(TextOutput::new("Looking".into())));
    assert_eq!(parts[1], ContentPart::ToolCall(call));
    match &parts[2] {
        ContentPart::ToolResult(TypedToolResult::Static(r)) => {
            assert_eq!(r.output, json("12"));
            assert_eq!(r.input, json(r#"{"city":"A"}"#));
            assert_eq!(r.provider_executed, Some(true));
        }
        other => panic!("unexpected {:?}", other),
    }
    assert_eq!(parts[3], ContentPart::ToolError(match output {
        ToolOutput::Error(e) => e,
        _ => unreachable!(),
    }));
}

#[test]
fn response_messages_split_assistant_and_tool_parts() {
    let call = TypedToolCall::Static(StaticToolCall::new("c1", "get_weather", json("{}")));
    let result = TypedToolResult::Static(StaticToolResult::new("c1", "get_weather", json("{}"), json("\"sunny\"")));
    let content = vec![
        ContentPart::Text(TextOutput::new("Let me check".into())),
        ContentPart::ToolCall(call),
        ContentPart::ToolResult(result),
    ];
    let messages = to_response_messages(content, vec![]);
    assert_eq!(messages.len(), 2);
    match &messages[0] {
        ModelMessage::Assistant(m) => match &m.content {
            AssistantContent::Parts(parts) => {
                assert_eq!(parts.len(), 2);
                assert!(matches!(parts[1], AssistantContentPart::ToolCall(_)));
            }
            other => panic!("unexpected {:?}", other),
        },
        other => panic!("unexpected {:?}", other),
    }
    match &messages[1] {
        ModelMessage::Tool(t) => match &t.content[0] {
            ToolContentPart::ToolResult(p) => {
                assert_eq!(p.tool_call_id, "c1");
                assert_eq!(p.output, ToolResultOutput::text("sunny"));
            }
            other => panic!("unexpected {:?}", other),
        },
        other => panic!("unexpected {:?}", other),
    }
    assert!(to_response_messages(vec![], vec![]).is_empty());
}

#[test]
fn response_messages_use_the_tools_own_output_conversion() {
    let call = TypedToolCall::Static(StaticToolCall::new("c1", "get_weather", json("{}")));
    let client = TypedToolResult::Static(StaticToolResult::new("c1", "get_weather", json("{}"), json("\"sunny\"")));
    let provider = TypedToolResult::Static(
        StaticToolResult::new("p1", "search", json("{}"), json("[1]")).with_provider_executed(true),
    );
    let content = vec![ContentPart::ToolCall(call), ContentPart::ToolResult(provider), ContentPart::ToolResult(client)];
    let custom = ToolResultOutput::text("It is sunny.");
    let searched = ToolResultOutput::text("one hit");
    let messages = to_response_messages(content, vec![None, Some(searched.clone()), Some(custom.clone())]);
    assert_eq!(messages.len(), 2);
    match &messages[0] {
        ModelMessage::Assistant(m) => match &m.content {
            AssistantContent::Parts(parts) => match &parts[1] {
                AssistantContentPart::ToolResult(p) => assert_eq!(p.output, searched),
                other => panic!("unexpected {:?}", other),
            },
            other => panic!("unexpected {:?}", other),
        },
        other => panic!("unexpected {:?}", other),
    }
    match &messages[1] {
        ModelMessage::Tool(t) => match &t.content[0] {
            ToolContentPart::ToolResult(p) => assert_eq!(p.output, custom),
            other => panic!("unexpected {:?}", other),
        },
        other => panic!("unexpected {:?}", other),
    }
}

#[test]
fn tool_model_output_modes() {
    assert_eq!(create_tool_model_output(json("\"ok\""), ErrorMode::Off), ToolResultOutput::text("ok"));
    assert_eq!(
        create_tool_model_output(json("{\"a\":1}"), ErrorMode::Off),
        ToolResultOutput::Json { value: json("{\"a\":1}"), provider_options: None }
    );
    assert_eq!(
        create_tool_model_output(json("{\"a\":1}"), ErrorMode::Text),
        ToolResultOutput::ErrorText { value: "{\"a\":1}".into(), provider_options: None }
    );
    assert_eq!(
        create_tool_model_output(json("3"), ErrorMode::Json),
        ToolResultOutput::ErrorJson { value: json("3"), provider_options: None }
    );
}

#[test]
fn prompt_conversion_puts_system_first_and_merges_tool_messages() {
    let tool_a = ToolModelMessage::new(vec![ToolContentPart::ToolResult(ToolResultPart::new("a", "t", ToolResultOutput::text("1")))]);
    let tool_b = ToolModelMessage::new(vec![ToolContentPart::ToolResult(ToolResultPart::new("b", "t", ToolResultOutput::text("2")))]);
    let prompt = StandardizedPrompt {
        system: Some("Be brief".into()),
        messages: vec![
            ModelMessage::from(UserModelMessage::new("Hi")),
            ModelMessage::from(tool_a),
            ModelMessage::from(tool_b),
            ModelMessage::from(AssistantModelMessage::new("Done")),
        ],
    };
    let out = convert_to_language_model_prompt(prompt).unwrap();
    assert_eq!(out.len(), 4);
    assert!(matches!(&out[0], LanguageModelMessage::System { content, .. } if content == "Be brief"));
    match &out[1] {
        LanguageModelMessage::User { content, .. } => {
            assert_eq!(content, &vec![UserMessagePart::Text { text: "Hi".into(), provider_options: None }])
        }
        other => panic!("unexpected {:?}", other),
    }
    match &out[2] {
        LanguageModelMessage::Tool { content, .. } => {
            assert_eq!(content.len(), 2);
            assert_eq!(content[1].tool_call_id, "b");
            assert_eq!(content[1].output, LanguageModelToolResultOutput::Text { value: "2".into() });
        }
        other => panic!("unexpected {:?}", other),
    }
    assert!(matches!(&out[3], LanguageModelMessage::Assistant { content, .. }
        if content == &vec![AssistantMessagePart::Text { text: "Done".into(), provider_options: None }]));
}

fn tool_msg(id: &str) -> LanguageModelMessage {
    LanguageModelMessage::Tool {
        content: vec![LanguageModelToolResultPart {
            tool_call_id: id.to_string(),
            tool_name: "t".to_string(),
            output: LanguageModelToolResultOutput::Text { value: id.to_string() },
            provider_options: None,
        }],
        provider_options: None,
    }
}

#[test]
fn combining_tool_messages_twice_changes_nothing() {
    let once = combine_consecutive_tool_messages(vec![tool_msg("a"), tool_msg("b")]);
    let twice = combine_consecutive_tool_messages(once.clone());
    assert_eq!(once, twice);
    assert_eq!(once.len(), 1);
    match &once[0] {
        LanguageModelMessage::Tool { content, .. } => assert_eq!(content.len(), 2),
        other => panic!("unexpected {:?}", other),
    }
}

#[test]
fn generate_text_result_from_steps() {
    let call = TypedToolCall::Dynamic(DynamicToolCall::new("d1", "dyn", json("{}")));
    let last = step(
        vec![
            ContentPart::Reasoning(ReasoningOutput::new("think ".into())),
            ContentPart::Text(TextOutput::new("Hello ".into())),
            ContentPart::Reasoning(ReasoningOutput::new("more".into())),
            ContentPart::Text(TextOutput::new("world".into())),
            ContentPart::ToolCall(call.clone()),
        ],
        usage(3, 4),
    );
    let messages = vec![ResponseMessage::Assistant(AssistantModelMessage::new("Hello world"))];
    let result =
        GenerateTextResult::from_steps(vec![step(vec![], usage(1, 1)), last], usage(4, 5), Value::Null, messages.clone());
    assert_eq!(result.text, "Hello world");
    assert_eq!(result.reasoning.len(), 2);
    assert_eq!(result.reasoning_text.as_deref(), Some("think more"));
    assert_eq!(result.tool_calls, vec![call]);
    assert!(result.static_tool_calls.is_empty());
    assert_eq!(result.dynamic_tool_calls.len(), 1);
    assert_eq!(result.usage.input_tokens, 3);
    assert_eq!(result.total_usage.input_tokens, 4);
    assert_eq!(result.response.id.as_deref(), Some("r1"));
    assert_eq!(result.response.messages, messages);
    assert_eq!(result.steps.len(), 2);
    assert!(result.files.is_empty());
}

#[test]
fn response_metadata_builders() {
    let metadata = ResponseMetadata::new(vec![]);
    assert!(metadata.messages.is_empty() && metadata.body.is_none() && metadata.id.is_none());
    let from_step = ResponseMetadata::from_step_metadata(
        vec![],
        StepResponseMetadata { id: Some("test_id".into()), model_id: Some("test_model".into()), timestamp: None, body: None },
    );
    assert_eq!(from_step.id.as_deref(), Some("test_id"));
    assert_eq!(from_step.model_id.as_deref(), Some("test_model"));
    let with = ResponseMetadata::new(vec![]).with_body(json("{\"key\":\"value\"}")).with_id("x".into()).with_timestamp(5);
    assert_eq!(with.body, Some(json("{\"key\":\"value\"}")));
    assert_eq!(with.timestamp, Some(5));
}

#[test]
fn step_result_accessors() {
    let s = step(
        vec![
            ContentPart::Text(TextOutput::new("a".into())),
            ContentPart::Text(TextOutput::new("b".into())),
        ],
        usage(1, 1),
    );
    assert_eq!(s.text(), "ab");
    assert!(s.reasoning().is_empty());
    assert_eq!(s.reasoning_text(), None);
    assert!(s.tool_calls().is_empty());
}

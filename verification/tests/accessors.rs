use ai_sdk_core::generate_text::content::{ContentPart, ReasoningOutput, SourceOutput, TextOutput};
use ai_sdk_core::generate_text::result::ResponseMetadata;
use ai_sdk_core::generate_text::tool_types::{
    DynamicToolCall, StaticToolError, StaticToolResult, ToolOutput, TypedToolCall, TypedToolError, TypedToolResult,
};
use ai_sdk_core::provider::{LanguageModelFinishReason, LanguageModelSource, LanguageModelUsage};
use ai_sdk_core::stream_text::SingleRequestTextStreamPart;
use ai_sdk_core::tool::{NeedsApproval, Tool, ToolType};
use serde_json::Value;
use std::collections::HashMap;

fn json(text: &str) -> Value {
    serde_json::from_str(text).unwrap()
}

#[test]
fn tool_outputs() {
    let result = TypedToolResult::Static(StaticToolResult::new("a", "t", json("1"), json("2")));
    let error = TypedToolError::Static(StaticToolError::new("a", "t", json("1"), json("\"e\"")));
    let r: ToolOutput = ToolOutput::from_result(result.clone());
    let e: ToolOutput = ToolOutput::from_error(error.clone());
    assert!(r.is_result() && !r.is_error());
    assert!(e.is_error() && !e.is_result());
    assert_eq!(r.as_result(), Some(&result));
    assert_eq!(r.as_error(), None);
    assert_eq!(e.as_error(), Some(&error));
    assert_eq!(e.as_result(), None);
    assert_eq!(r.clone().into_result(), Some(result));
    assert_eq!(r.into_error(), None);
    assert_eq!(e.clone().into_error(), Some(error));
    assert_eq!(e.into_result(), None);
}

#[test]
fn content_part_kinds() {
    let text: ContentPart = ContentPart::Text(TextOutput::new("x".into()));
    let reasoning: ContentPart = ContentPart::Reasoning(ReasoningOutput::new("y".into()));
    let source: ContentPart = ContentPart::Source(SourceOutput::new(LanguageModelSource::Url {
        id: "s".into(),
        url: "https://example.com".into(),
        title: None,
        provider_metadata: None,
    }));
    let call: ContentPart = ContentPart::ToolCall(TypedToolCall::Dynamic(DynamicToolCall::new("c", "t", json("{}"))));
    assert!(text.is_text() && !text.is_reasoning());
    assert!(reasoning.is_reasoning() && !reasoning.is_source());
    assert!(source.is_source() && !source.is_tool_call());
    assert!(call.is_tool_call() && !call.is_tool_result() && !call.is_tool_error());
}

#[test]
fn dynamic_call_builders() {
    let c = DynamicToolCall::new("c", "t", json("{}")).with_invalid(true).with_error(json("\"bad\""));
    assert_eq!(c.invalid, Some(true));
    assert_eq!(c.error, Some(json("\"bad\"")));
    assert!(c.dynamic);
}

#[test]
fn tool_builders() {
    let mut args = HashMap::new();
    args.insert("k".to_string(), json("1"));
    let t = Tool::provider_defined("acme.search", "search", args.clone(), json("{}"))
        .with_output_schema(json("{\"type\":\"string\"}"))
        .with_provider_options(HashMap::new());
    assert!(t.is_provider_defined() && !t.is_function() && !t.is_dynamic());
    assert_eq!(t.tool_type, ToolType::ProviderDefined { id: "acme.search".into(), name: "search".into(), args });
    assert_eq!(t.output_schema, Some(json("{\"type\":\"string\"}")));
    assert_eq!(t.provider_options, Some(HashMap::new()));
    assert_eq!(t.needs_approval, NeedsApproval::No);
    assert!(Tool::function(json("{}")).is_function());
}

#[test]
fn request_stream_part_constructors() {
    type P = SingleRequestTextStreamPart;
    assert_eq!(P::text_start("a"), P::TextStart { id: "a".into(), provider_metadata: None });
    assert_eq!(P::text_end("a"), P::TextEnd { id: "a".into(), provider_metadata: None });
    assert_eq!(P::reasoning_start("r"), P::ReasoningStart { id: "r".into(), provider_metadata: None });
    assert_eq!(P::reasoning_delta("r", "x"), P::ReasoningDelta { id: "r".into(), provider_metadata: None, delta: "x".into() });
    assert_eq!(P::reasoning_end("r"), P::ReasoningEnd { id: "r".into(), provider_metadata: None });
    assert_eq!(
        P::tool_input_start("i", "t"),
        P::ToolInputStart { id: "i".into(), tool_name: "t".into(), provider_metadata: None, dynamic: None, title: None }
    );
    assert_eq!(P::tool_input_delta("i", "{"), P::ToolInputDelta { id: "i".into(), delta: "{".into(), provider_metadata: None });
    assert_eq!(P::tool_input_end("i"), P::ToolInputEnd { id: "i".into(), provider_metadata: None });
    assert_eq!(P::stream_start(vec![]), P::StreamStart { warnings: vec![] });
    assert_eq!(P::error(json("1")), P::Error { error: json("1") });
    assert_eq!(P::raw(json("2")), P::Raw { raw_value: json("2") });
    let usage = LanguageModelUsage { input_tokens: 1, output_tokens: 2, total_tokens: 3, reasoning_tokens: 0, cached_input_tokens: 0 };
    assert_eq!(
        P::finish(LanguageModelFinishReason::Stop, usage),
        P::Finish { finish_reason: LanguageModelFinishReason::Stop, usage, provider_metadata: None }
    );
}

#[test]
fn response_metadata_model_id() {
    let m = ResponseMetadata::new(vec![]).with_model_id("gpt".into());
    assert_eq!(m.model_id.as_deref(), Some("gpt"));
}

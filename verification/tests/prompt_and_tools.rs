use ai_sdk_core::convert::{combine_consecutive_tool_messages, convert_to_language_model_prompt};
use ai_sdk_core::embed::user_agent_with_suffix;
use ai_sdk_core::prompt::{ModelMessage, ProviderOptions, StandardizedPrompt, SystemModelMessage, UserModelMessage};
use ai_sdk_core::provider::LanguageModelMessage;
use ai_sdk_core::tool::{NeedsApproval, Tool, ToolType};
use serde_json::Value;
use std::collections::HashMap;

fn json(text: &str) -> Value {
    serde_json::from_str(text).unwrap()
}

#[test]
fn test_convert_text_prompt() {
    let prompt = StandardizedPrompt {
        system: Some("You are helpful".to_string()),
        messages: vec![ModelMessage::User(UserModelMessage::new("Hello"))],
    };
    let result = convert_to_language_model_prompt(prompt).unwrap();
    assert_eq!(result.len(), 2);
}

#[test]
fn test_combine_consecutive_tool_messages() {
    let messages = vec![
        LanguageModelMessage::Tool { content: vec![], provider_options: None },
        LanguageModelMessage::Tool { content: vec![], provider_options: None },
    ];
    let combined = combine_consecutive_tool_messages(messages);
    assert_eq!(combined.len(), 1);
}

#[test]
fn test_model_message_clone() {
    let message = ModelMessage::from(SystemModelMessage::new("You are helpful."));
    let cloned = message.clone();
    assert_eq!(message, cloned);
}

#[test]
fn test_tool_function() {
    let schema = json(r#"{"type": "object", "properties": {"city": {"type": "string"}}}"#);
    let tool: Tool = Tool::function(schema.clone());
    assert!(tool.is_function());
    assert!(!tool.is_dynamic());
    assert!(!tool.is_provider_defined());
    assert!(tool.description.is_none());
    assert_eq!(tool.input_schema, schema);
}

#[test]
fn test_tool_dynamic() {
    let schema = json(r#"{"type": "object"}"#);
    let tool: Tool = Tool::dynamic(schema.clone());
    assert!(!tool.is_function());
    assert!(tool.is_dynamic());
    assert!(!tool.is_provider_defined());
}

#[test]
fn test_tool_provider_defined() {
    let schema = json(r#"{"type": "object"}"#);
    let mut args = HashMap::new();
    args.insert("key".to_string(), json("\"value\""));
    let tool: Tool = Tool::provider_defined("provider.tool", "tool_name", args.clone(), schema);
    assert!(!tool.is_function());
    assert!(!tool.is_dynamic());
    assert!(tool.is_provider_defined());
    if let ToolType::ProviderDefined { id, name, args: tool_args } = &tool.tool_type {
        assert_eq!(id, "provider.tool");
        assert_eq!(name, "tool_name");
        assert_eq!(tool_args, &args);
    } else {
        panic!("Expected ProviderDefined");
    }
}

#[test]
fn test_tool_with_description() {
    let tool: Tool = Tool::function(json(r#"{"type": "object"}"#)).with_description("A helpful tool");
    assert_eq!(tool.description, Some("A helpful tool".to_string()));
}

#[test]
fn test_tool_with_needs_approval() {
    let tool: Tool = Tool::function(json(r#"{"type": "object"}"#)).with_needs_approval(true);
    assert!(matches!(tool.needs_approval, NeedsApproval::Yes));
}

#[test]
fn test_tool_with_output_schema() {
    let output_schema = json(r#"{"type": "string"}"#);
    let tool: Tool = Tool::function(json(r#"{"type": "object"}"#)).with_output_schema(output_schema.clone());
    assert_eq!(tool.output_schema, Some(output_schema));
}

#[test]
fn test_tool_with_provider_options() {
    let options: ProviderOptions = HashMap::new();
    let tool: Tool = Tool::function(json(r#"{"type": "object"}"#)).with_provider_options(options.clone());
    assert_eq!(tool.provider_options, Some(options));
}

/// The header map of an embedding call after the SDK's user agent suffix is
/// added: the user agent is computed by the library, the map is kept here.
fn add_user_agent_suffix(headers: Option<HashMap<String, String>>, suffix: String) -> Option<HashMap<String, String>> {
    let mut headers = headers.unwrap_or_default();
    let agent = user_agent_with_suffix(headers.get("user-agent").map(|s| s.as_str()), &suffix);
    headers.insert("user-agent".to_string(), agent);
    Some(headers)
}

#[test]
fn test_add_user_agent_suffix_empty_suffix() {
    let headers = add_user_agent_suffix(None, "".to_string());
    assert!(headers.is_some());
    let headers = headers.unwrap();
    assert_eq!(headers.get("user-agent"), Some(&"".to_string()));
}

#[test]
fn test_add_user_agent_suffix_no_existing_headers() {
    let headers = add_user_agent_suffix(None, "ai/1.0.0".to_string());
    assert!(headers.is_some());
    let headers = headers.unwrap();
    assert_eq!(headers.get("user-agent"), Some(&"ai/1.0.0".to_string()));
}

#[test]
fn test_add_user_agent_suffix_with_existing_headers() {
    let mut existing = HashMap::new();
    existing.insert("content-type".to_string(), "application/json".to_string());
    let headers = add_user_agent_suffix(Some(existing), "ai/1.0.0".to_string());
    assert!(headers.is_some());
    let headers = headers.unwrap();
    assert_eq!(headers.get("user-agent"), Some(&"ai/1.0.0".to_string()));
    assert_eq!(headers.get("content-type"), Some(&"application/json".to_string()));
}

#[test]
fn test_add_user_agent_suffix_with_existing_user_agent() {
    let mut existing = HashMap::new();
    existing.insert("user-agent".to_string(), "custom-agent/1.0".to_string());
    let headers = add_user_agent_suffix(Some(existing), "ai/1.0.0".to_string());
    assert!(headers.is_some());
    let headers = headers.unwrap();
    assert_eq!(headers.get("user-agent"), Some(&"custom-agent/1.0 ai/1.0.0".to_string()));
}

#[test]
fn test_no_approval_needed() {
    let tool: Tool = Tool::function(json(r#"{"type": "object", "properties": {"city": {"type": "string"}}}"#));
    assert_eq!(ai_sdk_core::tool::is_approval_needed(&tool), Some(false));
}

#[test]
fn test_always_needs_approval() {
    let mut tool: Tool = Tool::function(json(r#"{"type": "object", "properties": {"city": {"type": "string"}}}"#));
    tool.needs_approval = NeedsApproval::Yes;
    assert_eq!(ai_sdk_core::tool::is_approval_needed(&tool), Some(true));
}

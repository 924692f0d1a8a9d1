use ai_sdk_core::error::AISDKError;
use ai_sdk_core::generate_text::parse_tool_call::{
    parse_provider_executed_dynamic_tool_call, parse_tool_call, validate_tool_input,
};
use ai_sdk_core::generate_text::tool_types::TypedToolCall;
use ai_sdk_core::provider::{LanguageModelToolCall, ProviderMetadata};
use ai_sdk_core::tool::{Tool, ToolSet};
use serde_json::Value;

fn json(text: &str) -> Value {
    serde_json::from_str(text).unwrap()
}

fn call(id: &str, name: &str, input: &str) -> LanguageModelToolCall {
    call_with(id, name, input, None, None)
}

fn call_with(
    id: &str,
    name: &str,
    input: &str,
    provider_executed: Option<bool>,
    provider_metadata: Option<ProviderMetadata>,
) -> LanguageModelToolCall {
    LanguageModelToolCall {
        tool_call_id: id.to_string(),
        tool_name: name.to_string(),
        input: input.to_string(),
        provider_executed,
        provider_metadata,
    }
}

#[test]
fn test_parse_provider_executed_dynamic_tool_call_with_input() {
    let tool_call = call("call_123", "dynamic_tool", r#"{"city": "SF"}"#);

    let result = parse_provider_executed_dynamic_tool_call(&tool_call);
    assert!(result.is_ok());

    let typed_call = result.unwrap();
    match typed_call {
        TypedToolCall::Dynamic(parsed) => {
            assert_eq!(parsed.tool_call_id, "call_123");
            assert_eq!(parsed.tool_name, "dynamic_tool");
            assert_eq!(parsed.input, json(r#"{"city": "SF"}"#));
            assert_eq!(parsed.provider_executed, Some(true));
            assert_eq!(parsed.dynamic, true);
        }
        TypedToolCall::Static(_) => panic!("Expected Dynamic variant"),
    }
}

#[test]
fn test_parse_provider_executed_dynamic_tool_call_empty_input() {
    let tool_call = call("call_123", "dynamic_tool", "");

    let result = parse_provider_executed_dynamic_tool_call(&tool_call);
    assert!(result.is_ok());

    let typed_call = result.unwrap();
    match typed_call {
        TypedToolCall::Dynamic(parsed) => {
            assert_eq!(parsed.input, json(r#"{}"#));
        }
        TypedToolCall::Static(_) => panic!("Expected Dynamic variant"),
    }
}

#[test]
fn test_parse_provider_executed_dynamic_tool_call_invalid_json() {
    let tool_call = call("call_123", "dynamic_tool", "invalid json");

    let result = parse_provider_executed_dynamic_tool_call(&tool_call);
    assert!(result.is_err());

    match result {
        Err(AISDKError::InvalidToolInput { tool_name, .. }) => {
            assert_eq!(tool_name, "dynamic_tool");
        }
        _ => panic!("Expected InvalidToolInput error"),
    }
}

#[test]
fn test_parse_tool_call_function_tool() {
    let mut tools = ToolSet::new();
    let schema = json(r#"{ "type": "object", "properties": { "city": {"type": "string"} } }"#);
    tools.insert("get_weather".to_string(), Tool::function(schema));

    let tool_call = call("call_123", "get_weather", r#"{"city": "SF"}"#);

    let result = parse_tool_call(&tool_call, &tools);
    assert!(result.is_ok());

    let typed_call = result.unwrap();
    match typed_call {
        TypedToolCall::Static(parsed) => {
            assert_eq!(parsed.tool_call_id, "call_123");
            assert_eq!(parsed.tool_name, "get_weather");
            assert_eq!(parsed.input, json(r#"{"city": "SF"}"#));
            assert_eq!(parsed.dynamic, None); // Function tools are not dynamic
        }
        TypedToolCall::Dynamic(_) => panic!("Expected Static variant for function tool"),
    }
}

#[test]
fn test_parse_tool_call_dynamic_tool() {
    let mut tools = ToolSet::new();
    let schema = json(r#"{"type": "object"}"#);
    tools.insert("dynamic_tool".to_string(), Tool::dynamic(schema));

    let tool_call =
        call("call_123", "dynamic_tool", r#"{"data": "test"}"#);

    let result = parse_tool_call(&tool_call, &tools);
    assert!(result.is_ok());

    let typed_call = result.unwrap();
    match typed_call {
        TypedToolCall::Dynamic(parsed) => {
            assert_eq!(parsed.tool_name, "dynamic_tool");
            assert_eq!(parsed.input, json(r#"{"data": "test"}"#));
            assert_eq!(parsed.dynamic, true); // Dynamic tools have dynamic flag
        }
        TypedToolCall::Static(_) => panic!("Expected Dynamic variant for dynamic tool"),
    }
}

#[test]
fn test_parse_tool_call_empty_input() {
    let mut tools = ToolSet::new();
    let schema = json(r#"{"type": "object"}"#);
    tools.insert("no_args_tool".to_string(), Tool::function(schema));

    let tool_call = call("call_123", "no_args_tool", "");

    let result = parse_tool_call(&tool_call, &tools);
    assert!(result.is_ok());

    let typed_call = result.unwrap();
    match typed_call {
        TypedToolCall::Static(parsed) => {
            assert_eq!(parsed.input, json(r#"{}"#)); // Empty string becomes empty object
        }
        TypedToolCall::Dynamic(_) => panic!("Expected Static variant"),
    }
}

#[test]
fn test_parse_tool_call_tool_not_found() {
    let tools = ToolSet::new();
    let tool_call = call("call_123", "unknown_tool", "{}");

    let result = parse_tool_call(&tool_call, &tools);
    assert!(result.is_err());

    match result {
        Err(AISDKError::NoSuchTool { tool_name, .. }) => {
            assert_eq!(tool_name, "unknown_tool");
        }
        _ => panic!("Expected NoSuchTool error"),
    }
}

#[test]
fn test_parse_tool_call_invalid_json() {
    let mut tools = ToolSet::new();
    let schema = json(r#"{"type": "object"}"#);
    tools.insert("test_tool".to_string(), Tool::function(schema));

    let tool_call = call("call_123", "test_tool", "not valid json");

    let result = parse_tool_call(&tool_call, &tools);
    assert!(result.is_err());

    match result {
        Err(AISDKError::InvalidToolInput {
            tool_name,
            tool_input,
            ..
        }) => {
            assert_eq!(tool_name, "test_tool");
            assert_eq!(tool_input, "not valid json");
        }
        _ => panic!("Expected InvalidToolInput error"),
    }
}

#[test]
fn test_parse_tool_call_provider_executed_not_in_toolset() {
    let tools = ToolSet::new();
    let tool_call = call_with(
        "call_123",
        "provider_tool",
        r#"{"key": "value"}"#,
        Some(true), // provider_executed
        None,
    );

    let result = parse_tool_call(&tool_call, &tools);
    assert!(result.is_ok());

    let typed_call = result.unwrap();
    match typed_call {
        TypedToolCall::Dynamic(parsed) => {
            assert_eq!(parsed.tool_name, "provider_tool");
            assert_eq!(parsed.provider_executed, Some(true));
            assert_eq!(parsed.dynamic, true); // Treated as dynamic
        }
        TypedToolCall::Static(_) => {
            panic!("Expected Dynamic variant for provider-executed tool")
        }
    }
}

// Schema validation tests

#[test]
fn test_parse_tool_call_with_valid_schema() {
    let mut tools = ToolSet::new();
    let schema = json(r#"{ "type": "object", "properties": { "city": { "type": "string", "description": "The city name" }, "units": { "type": "string", "enum": ["celsius", "fahrenheit"] } }, "required": ["city"] }"#);
    tools.insert("get_weather".to_string(), Tool::function(schema));

    let tool_call = call(
        "call_123",
        "get_weather",
        r#"{"city": "San Francisco", "units": "celsius"}"#,
    );

    let result = parse_tool_call(&tool_call, &tools);
    assert!(result.is_ok());

    let typed_call = result.unwrap();
    match typed_call {
        TypedToolCall::Static(parsed) => {
            assert_eq!(parsed.input["city"], "San Francisco");
            assert_eq!(parsed.input["units"], "celsius");
        }
        TypedToolCall::Dynamic(_) => panic!("Expected Static variant"),
    }
}

#[test]
fn test_parse_tool_call_missing_required_field() {
    let mut tools = ToolSet::new();
    let schema = json(r#"{ "type": "object", "properties": { "city": { "type": "string" } }, "required": ["city"] }"#);
    tools.insert("get_weather".to_string(), Tool::function(schema));

    let tool_call =
        call("call_123", "get_weather", r#"{"units": "celsius"}"#);

    let result = parse_tool_call(&tool_call, &tools);
    assert!(result.is_err());

    match result {
        Err(AISDKError::InvalidToolInput {
            tool_name, message, ..
        }) => {
            assert_eq!(tool_name, "get_weather");
            assert!(message.contains("does not match schema"));
            assert!(message.contains("required"));
        }
        _ => panic!("Expected InvalidToolInput error"),
    }
}

#[test]
fn test_parse_tool_call_wrong_type() {
    let mut tools = ToolSet::new();
    let schema = json(r#"{ "type": "object", "properties": { "count": { "type": "number" } } }"#);
    tools.insert("count_tool".to_string(), Tool::function(schema));

    let tool_call =
        call("call_123", "count_tool", r#"{"count": "not a number"}"#);

    let result = parse_tool_call(&tool_call, &tools);
    assert!(result.is_err());

    match result {
        Err(AISDKError::InvalidToolInput {
            tool_name, message, ..
        }) => {
            assert_eq!(tool_name, "count_tool");
            assert!(message.contains("does not match schema"));
        }
        _ => panic!("Expected InvalidToolInput error"),
    }
}

#[test]
fn test_parse_tool_call_invalid_enum_value() {
    let mut tools = ToolSet::new();
    let schema = json(r#"{ "type": "object", "properties": { "status": { "type": "string", "enum": ["active", "inactive", "pending"] } } }"#);
    tools.insert("update_status".to_string(), Tool::function(schema));

    let tool_call =
        call("call_123", "update_status", r#"{"status": "deleted"}"#);

    let result = parse_tool_call(&tool_call, &tools);
    assert!(result.is_err());

    match result {
        Err(AISDKError::InvalidToolInput {
            tool_name, message, ..
        }) => {
            assert_eq!(tool_name, "update_status");
            assert!(message.contains("does not match schema"));
        }
        _ => panic!("Expected InvalidToolInput error"),
    }
}

#[test]
fn test_parse_tool_call_additional_properties() {
    let mut tools = ToolSet::new();
    let schema = json(r#"{ "type": "object", "properties": { "name": { "type": "string" } }, "additionalProperties": false }"#);
    tools.insert("strict_tool".to_string(), Tool::function(schema));

    let tool_call = call(
        "call_123",
        "strict_tool",
        r#"{"name": "test", "extra": "field"}"#,
    );

    let result = parse_tool_call(&tool_call, &tools);
    assert!(result.is_err());

    match result {
        Err(AISDKError::InvalidToolInput {
            tool_name, message, ..
        }) => {
            assert_eq!(tool_name, "strict_tool");
            assert!(message.contains("does not match schema"));
        }
        _ => panic!("Expected InvalidToolInput error"),
    }
}

#[test]
fn test_parse_tool_call_nested_object_validation() {
    let mut tools = ToolSet::new();
    let schema = json(r#"{ "type": "object", "properties": { "location": { "type": "object", "properties": { "city": {"type": "string"}, "country": {"type": "string"} }, "required": ["city", "country"] } }, "required": ["location"] }"#);
    tools.insert("get_info".to_string(), Tool::function(schema));

    // Valid nested object
    let tool_call = call(
        "call_123",
        "get_info",
        r#"{"location": {"city": "Paris", "country": "France"}}"#,
    );
    let result = parse_tool_call(&tool_call, &tools);
    assert!(result.is_ok());
    // Verify it's a Static variant
    matches!(result.unwrap(), TypedToolCall::Static(_));

    // Invalid nested object (missing required field)
    let tool_call = call(
        "call_124",
        "get_info",
        r#"{"location": {"city": "Paris"}}"#,
    );
    let result = parse_tool_call(&tool_call, &tools);
    assert!(result.is_err());
}

#[test]
fn test_parse_tool_call_array_validation() {
    let mut tools = ToolSet::new();
    let schema = json(r#"{ "type": "object", "properties": { "tags": { "type": "array", "items": { "type": "string" }, "minItems": 1, "maxItems": 5 } } }"#);
    tools.insert("tag_tool".to_string(), Tool::function(schema));

    // Valid array
    let tool_call =
        call("call_123", "tag_tool", r#"{"tags": ["tag1", "tag2"]}"#);
    let result = parse_tool_call(&tool_call, &tools);
    assert!(result.is_ok());
    matches!(result.unwrap(), TypedToolCall::Static(_));

    // Invalid array (wrong item type)
    let tool_call =
        call("call_124", "tag_tool", r#"{"tags": ["tag1", 123]}"#);
    let result = parse_tool_call(&tool_call, &tools);
    assert!(result.is_err());

    // Invalid array (too many items)
    let tool_call = call(
        "call_125",
        "tag_tool",
        r#"{"tags": ["tag1", "tag2", "tag3", "tag4", "tag5", "tag6"]}"#,
    );
    let result = parse_tool_call(&tool_call, &tools);
    assert!(result.is_err());
}

#[test]
fn test_parse_tool_call_string_constraints() {
    let mut tools = ToolSet::new();
    let schema = json(r#"{ "type": "object", "properties": { "email": { "type": "string", "format": "email" }, "username": { "type": "string", "minLength": 3, "maxLength": 20 } } }"#);
    tools.insert("user_tool".to_string(), Tool::function(schema));

    // Valid input
    let tool_call = call(
        "call_123",
        "user_tool",
        r#"{"email": "user@example.com", "username": "john_doe"}"#,
    );
    let result = parse_tool_call(&tool_call, &tools);
    assert!(result.is_ok());
    matches!(result.unwrap(), TypedToolCall::Static(_));

    // Invalid username (too short)
    let tool_call = call(
        "call_124",
        "user_tool",
        r#"{"email": "user@example.com", "username": "ab"}"#,
    );
    let result = parse_tool_call(&tool_call, &tools);
    assert!(result.is_err());
}

#[test]
fn test_parse_tool_call_number_constraints() {
    let mut tools = ToolSet::new();
    let schema = json(r#"{ "type": "object", "properties": { "age": { "type": "integer", "minimum": 0, "maximum": 150 }, "temperature": { "type": "number", "minimum": -273.15 } } }"#);
    tools.insert("data_tool".to_string(), Tool::function(schema));

    // Valid input
    let tool_call = call(
        "call_123",
        "data_tool",
        r#"{"age": 25, "temperature": 20.5}"#,
    );
    let result = parse_tool_call(&tool_call, &tools);
    assert!(result.is_ok());
    matches!(result.unwrap(), TypedToolCall::Static(_));

    // Invalid age (negative)
    let tool_call = call(
        "call_124",
        "data_tool",
        r#"{"age": -5, "temperature": 20.5}"#,
    );
    let result = parse_tool_call(&tool_call, &tools);
    assert!(result.is_err());

    // Invalid temperature (below absolute zero)
    let tool_call = call(
        "call_125",
        "data_tool",
        r#"{"age": 25, "temperature": -300}"#,
    );
    let result = parse_tool_call(&tool_call, &tools);
    assert!(result.is_err());
}

#[test]
fn test_parse_tool_call_empty_schema_allows_anything() {
    let mut tools = ToolSet::new();
    // Empty schema (or true) allows any valid JSON
    let schema = json(r#"{}"#);
    tools.insert("flexible_tool".to_string(), Tool::function(schema));

    let tool_call = call(
        "call_123",
        "flexible_tool",
        r#"{"any": "value", "is": "allowed", "count": 42}"#,
    );
    let result = parse_tool_call(&tool_call, &tools);
    assert!(result.is_ok());
    matches!(result.unwrap(), TypedToolCall::Static(_));
}

#[test]
fn test_validate_tool_input_function() {
    let schema = json(r#"{ "type": "object", "properties": { "name": {"type": "string"} }, "required": ["name"] }"#);

    // Valid input
    let input = json(r#"{"name": "test"}"#);
    let result = validate_tool_input("test_tool", &input, &schema);
    assert!(result.is_ok());

    // Invalid input (missing required field)
    let input = json(r#"{"other": "field"}"#);
    let result = validate_tool_input("test_tool", &input, &schema);
    assert!(result.is_err());

    match result {
        Err(AISDKError::InvalidToolInput { message, .. }) => {
            assert!(message.contains("does not match schema"));
        }
        _ => panic!("Expected InvalidToolInput error"),
    }
}

#[test]
fn schema_violation_names_where_it_happened() {
    let mut tools = ToolSet::new();
    tools.insert(
        "count_tool".to_string(),
        Tool::function(json(r#"{"type": "object", "properties": {"count": {"type": "number"}}}"#)),
    );
    match parse_tool_call(&call("c", "count_tool", r#"{"count": "x"}"#), &tools) {
        Err(AISDKError::InvalidToolInput { message, .. }) => {
            assert!(message.starts_with("Input does not match schema: "));
            assert!(message.contains(" at /count"));
        }
        other => panic!("unexpected {:?}", other),
    }
}

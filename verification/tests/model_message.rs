use ai_sdk_core::generate_text::response::ResponseMessage;
use ai_sdk_core::prompt::{
    AssistantModelMessage, ModelMessage, SystemModelMessage, ToolContentPart, ToolModelMessage, ToolResultOutput,
    ToolResultPart, UserModelMessage,
};

#[test]
fn test_model_message_system() {
    let system_msg = SystemModelMessage::new("You are a helpful assistant.");
    let message = ModelMessage::from(system_msg);

    assert_eq!(message.role(), "system");
    assert!(message.is_system());
    assert!(!message.is_user());
    assert!(!message.is_assistant());
    assert!(!message.is_tool());
}

#[test]
fn test_model_message_user() {
    let user_msg = UserModelMessage::new("Hello!");
    let message = ModelMessage::from(user_msg);

    assert_eq!(message.role(), "user");
    assert!(!message.is_system());
    assert!(message.is_user());
    assert!(!message.is_assistant());
    assert!(!message.is_tool());
}

#[test]
fn test_model_message_assistant() {
    let assistant_msg = AssistantModelMessage::new("Hello, how can I help you?");
    let message = ModelMessage::from(assistant_msg);

    assert_eq!(message.role(), "assistant");
    assert!(!message.is_system());
    assert!(!message.is_user());
    assert!(message.is_assistant());
    assert!(!message.is_tool());
}

#[test]
fn test_model_message_conversation() {
    let messages = vec![
        ModelMessage::from(SystemModelMessage::new("You are helpful.")),
        ModelMessage::from(UserModelMessage::new("Hello!")),
        ModelMessage::from(AssistantModelMessage::new("Hi! How can I help?")),
    ];

    assert_eq!(messages.len(), 3);
    assert!(messages[0].is_system());
    assert!(messages[1].is_user());
    assert!(messages[2].is_assistant());
}

#[test]
fn test_model_message_tool() {
    let tool_msg = ToolModelMessage::new(vec![ToolContentPart::ToolResult(ToolResultPart::new(
        "call_123",
        "tool_name",
        ToolResultOutput::text("Success"),
    ))]);
    let message = ModelMessage::from(tool_msg);

    assert_eq!(message.role(), "tool");
    assert!(!message.is_system());
    assert!(!message.is_user());
    assert!(!message.is_assistant());
    assert!(message.is_tool());
}

#[test]
fn response_message_round_trip() {
    let message = ModelMessage::from(AssistantModelMessage::new("Hi"));
    let response = ResponseMessage::from_model_message(message.clone());
    assert!(response.is_assistant());
    assert!(!response.is_tool());
    assert!(response.as_assistant().is_some());
    assert!(response.as_tool().is_none());
    assert_eq!(response.into_model_message(), message);
}

#[test]
fn response_message_of_tool_message() {
    let tool = ToolModelMessage::new(vec![]);
    let response = ResponseMessage::from_tool(tool.clone());
    assert!(response.is_tool());
    assert_eq!(response.as_tool(), Some(&tool));
    assert_eq!(response.into_model_message(), ModelMessage::Tool(tool));
}

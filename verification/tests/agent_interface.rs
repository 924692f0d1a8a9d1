use ai_sdk_core::agent::AgentCallParameters;
use ai_sdk_core::prompt::{ModelMessage, PromptContent, UserModelMessage};

#[test]
fn test_agent_call_parameters_from_text() {
    let params = AgentCallParameters::from_text("What is the weather?");
    match &params.prompt {
        PromptContent::Text { text } => assert_eq!(text, "What is the weather?"),
        _ => panic!("Expected Text variant"),
    }
}

#[test]
fn test_agent_call_parameters_from_messages() {
    let messages = vec![];
    let params = AgentCallParameters::from_messages(messages);
    match &params.prompt {
        PromptContent::Messages { messages } => assert_eq!(messages.len(), 0),
        _ => panic!("Expected Messages variant"),
    }
}

#[test]
fn test_agent_call_parameters_new() {
    let prompt_content = PromptContent::Text {
        text: "Hello".to_string(),
    };
    let params = AgentCallParameters::new(prompt_content);
    match &params.prompt {
        PromptContent::Text { text } => assert_eq!(text, "Hello"),
        _ => panic!("Expected Text variant"),
    }
}

#[test]
fn test_agent_settings_to_call_settings() {
    // Nothing to check until a model is at hand.
}

#[test]
fn test_agent_can_be_created() {
    // Nothing to check until a model is at hand.
}

#[test]
fn agent_call_parameters_keep_the_messages() {
    let messages = vec![ModelMessage::from(UserModelMessage::new("Hi"))];
    let params = AgentCallParameters::from_messages(messages.clone());
    assert_eq!(params.prompt, PromptContent::Messages { messages });
}

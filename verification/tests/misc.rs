use ai_sdk_core::embed::user_agent_with_suffix;
use ai_sdk_core::error::AISDKError;
use ai_sdk_core::prompt::{standardize_prompt, ModelMessage, PromptContent, UserContent, UserModelMessage};
use ai_sdk_core::rerank::check_model_version;
use ai_sdk_core::stream_text::enriched::EnrichedStreamPart;
use ai_sdk_core::stream_text::TextStreamPart;
use ai_sdk_core::retries::extract_retry_delay_from_error;
use ai_sdk_core::settings::check_max_output_tokens;
use ai_sdk_core::storage::gives_up;
use serde_json::Value;
use std::time::Duration;

#[test]
fn text_prompt_becomes_one_user_message() {
    let p = standardize_prompt(Some("sys".into()), PromptContent::Text { text: "Hi".into() }).unwrap();
    assert_eq!(p.system.as_deref(), Some("sys"));
    assert_eq!(p.messages.len(), 1);
    match &p.messages[0] {
        ModelMessage::User(u) => assert_eq!(u.content, UserContent::Text("Hi".into())),
        other => panic!("unexpected {:?}", other),
    }
}

#[test]
fn empty_conversation_is_refused() {
    match standardize_prompt(None, PromptContent::Messages { messages: vec![] }) {
        Err(AISDKError::InvalidPrompt { message }) => assert_eq!(message, "messages must not be empty"),
        other => panic!("unexpected {:?}", other),
    }
    let messages = vec![ModelMessage::from(UserModelMessage::new("x"))];
    let p = standardize_prompt(None, PromptContent::Messages { messages: messages.clone() }).unwrap();
    assert_eq!(p.messages, messages);
}

#[test]
fn user_agent_suffix() {
    assert_eq!(user_agent_with_suffix(None, "ai/1"), "ai/1");
    assert_eq!(user_agent_with_suffix(Some(""), "ai/1"), "ai/1");
    assert_eq!(user_agent_with_suffix(Some("app/2"), "ai/1"), "app/2 ai/1");
}

#[test]
fn reranking_model_version() {
    assert!(check_model_version("v3", "p", "m").is_ok());
    match check_model_version("v2", "acme", "rr-1") {
        Err(AISDKError::ModelError { message }) => {
            assert_eq!(message, "Unsupported model version: v2. Provider: acme, Model ID: rr-1")
        }
        other => panic!("unexpected {:?}", other),
    }
}

#[test]
fn enriched_parts() {
    let part: TextStreamPart = TextStreamPart::Start;
    let mut e: EnrichedStreamPart = EnrichedStreamPart::new(part.clone());
    assert_eq!(e.partial_output_ref(), None);
    e.set_partial_output(Value::Bool(true));
    assert_eq!(e.partial_output_ref(), Some(&Value::Bool(true)));
    assert_eq!(e.part_ref(), &part);
    let w: EnrichedStreamPart = EnrichedStreamPart::with_output(TextStreamPart::Abort, Value::Null);
    assert_eq!(w.partial_output, Some(Value::Null));
    assert_eq!(w.into_part(), TextStreamPart::Abort);
}

#[test]
fn max_output_tokens_must_allow_a_token() {
    assert!(check_max_output_tokens(None).is_ok());
    assert!(check_max_output_tokens(Some(1)).is_ok());
    assert!(check_max_output_tokens(Some(100)).is_ok());
    match check_max_output_tokens(Some(0)) {
        Err(AISDKError::InvalidArgument { parameter, value, message }) => {
            assert_eq!(parameter, "maxOutputTokens");
            assert_eq!(value, "0");
            assert_eq!(message, "maxOutputTokens must be >= 1");
        }
        other => panic!("unexpected {:?}", other),
    }
}

#[test]
fn storage_gives_up_on_permanent_errors_and_spent_retries() {
    assert!(gives_up(false, 1, 3));
    assert!(!gives_up(true, 1, 3));
    assert!(!gives_up(true, 3, 3));
    assert!(gives_up(true, 4, 3));
}

#[test]
fn retry_hint_ignores_case_and_white_space() {
    assert_eq!(extract_retry_delay_from_error("RETRY AFTER 45 SECONDS"), Some(Duration::from_secs(45)));
    assert_eq!(extract_retry_delay_from_error("retry after 45 seconds"), Some(Duration::from_secs(45)));
    assert_eq!(extract_retry_delay_from_error("retry\tafter\u{3000}7"), Some(Duration::from_secs(7)));
}

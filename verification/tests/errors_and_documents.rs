use ai_sdk_core::error::AISDKError;
use ai_sdk_core::rerank::{detect_document_type, reranked_documents, RerankingDocuments};
use serde_json::Value;

fn json(text: &str) -> Value {
    serde_json::from_str(text).unwrap()
}

#[test]
fn error_messages() {
    assert_eq!(
        AISDKError::invalid_argument("temperature", "NaN", "must be finite").to_string(),
        "Invalid argument for parameter 'temperature': must be finite (value: NaN)"
    );
    assert_eq!(AISDKError::invalid_prompt("empty").to_string(), "Invalid prompt: empty");
    assert_eq!(AISDKError::model_error("down").to_string(), "Model error: down");
    assert_eq!(AISDKError::retryable_error("busy").to_string(), "Retryable error: busy");
    assert_eq!(
        AISDKError::retryable_error_with_delay("busy", std::time::Duration::from_secs(2)).to_string(),
        "Retryable error: busy"
    );
    assert_eq!(
        AISDKError::invalid_tool_input("calc", "{", "bad").to_string(),
        "Invalid tool input for tool 'calc': bad"
    );
    assert_eq!(
        AISDKError::no_such_tool("x", vec!["a".into(), "b\"c".into()]).to_string(),
        "No such tool: 'x'. Available tools: [\"a\", \"b\\\"c\"]"
    );
}

#[test]
fn error_constructors_fill_the_fields() {
    match AISDKError::invalid_tool_input("calc", "{", "bad") {
        AISDKError::InvalidToolInput { tool_name, tool_input, message } => {
            assert_eq!((tool_name.as_str(), tool_input.as_str(), message.as_str()), ("calc", "{", "bad"));
        }
        other => panic!("unexpected {:?}", other),
    }
    match AISDKError::retryable_error("busy") {
        AISDKError::RetryableError { retry_after, .. } => assert_eq!(retry_after, None),
        other => panic!("unexpected {:?}", other),
    }
}

#[test]
fn documents_of_text() {
    let docs = vec![json("\"a\""), json("\"b\"")];
    assert_eq!(
        detect_document_type(&docs).unwrap(),
        RerankingDocuments::Text { values: vec!["a".to_string(), "b".to_string()] }
    );
    assert_eq!(detect_document_type(&vec![]).unwrap(), RerankingDocuments::Text { values: vec![] });
}

#[test]
fn documents_of_objects() {
    let docs = vec![json(r#"{"t":1}"#)];
    match detect_document_type(&docs).unwrap() {
        RerankingDocuments::Object { values } => {
            assert_eq!(values.len(), 1);
            assert_eq!(values[0].get("t"), Some(&json("1")));
        }
        other => panic!("unexpected {:?}", other),
    }
}

#[test]
fn documents_of_mixed_kinds() {
    let docs = vec![json("\"a\""), json("\"b\""), json("3")];
    match detect_document_type(&docs) {
        Err(AISDKError::InvalidArgument { parameter, value, message }) => {
            assert_eq!(parameter, "documents[2]");
            assert_eq!(value, "Number(3)");
            assert_eq!(message, "All documents must be of the same type (string or object)");
        }
        other => panic!("unexpected {:?}", other),
    }
}

#[test]
fn documents_of_another_kind() {
    match detect_document_type(&vec![json("true")]) {
        Err(AISDKError::InvalidArgument { parameter, value, message }) => {
            assert_eq!(parameter, "documents[0]");
            assert_eq!(value, "Bool(true)");
            assert_eq!(message, "Documents must be either strings or JSON objects");
        }
        other => panic!("unexpected {:?}", other),
    }
}

#[test]
fn test_detect_document_type_empty() {
    let documents: Vec<Value> = vec![];
    let result = detect_document_type(&documents).unwrap();
    match result {
        RerankingDocuments::Text { values } => assert_eq!(values.len(), 0),
        other => panic!("expected text documents, got {:?}", other),
    }
}

#[test]
fn test_detect_document_type_objects() {
    let documents = vec![
        json(r#"{"title": "Doc 1", "content": "Content 1"}"#),
        json(r#"{"title": "Doc 2", "content": "Content 2"}"#),
    ];
    let result = detect_document_type(&documents).unwrap();
    assert!(matches!(result, RerankingDocuments::Object { .. }));
}

#[test]
fn test_detect_document_type_text() {
    let documents = vec![json("\"First\""), json("\"Second\""), json("\"Third\"")];
    let result = detect_document_type(&documents).unwrap();
    match result {
        RerankingDocuments::Text { values } => {
            assert_eq!(values.len(), 3);
            assert_eq!(values[0], "First");
        }
        other => panic!("expected text documents, got {:?}", other),
    }
}

#[test]
fn documents_follow_the_ranking() {
    let documents = vec!["a".to_string(), "b".to_string(), "c".to_string()];
    assert_eq!(reranked_documents(&documents, &vec![2, 0, 2]), vec!["c".to_string(), "a".to_string(), "c".to_string()]);
    assert!(reranked_documents(&documents, &vec![]).is_empty());
}

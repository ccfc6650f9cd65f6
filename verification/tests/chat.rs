use llm_client::chat::{
    chat_content, chat_from_response, chat_request_body, interpret_chat_response,
};
use llm_client::error::{status_is_success, ClientError, Operation};
use llm_client::json::{Json, Member};

#[test]
fn first_choice_content_is_returned() {
    let body = r#"{"choices":[{"message":{"content":"hi"}}]}"#;
    assert_eq!(interpret_chat_response(200, body), Ok(Some("hi".to_string())));
}

#[test]
fn no_choices_is_a_success_without_content() {
    assert_eq!(interpret_chat_response(200, r#"{"choices":[]}"#), Ok(None));
}

#[test]
fn absent_or_null_content_is_a_success_without_content() {
    assert_eq!(interpret_chat_response(200, r#"{"choices":[{"message":{}}]}"#), Ok(None));
    assert_eq!(
        interpret_chat_response(200, r#"{"choices":[{"message":{"content":null}}]}"#),
        Ok(None)
    );
}

#[test]
fn only_the_first_choice_counts() {
    let body = r#"{"id":"x","choices":[{"message":{"role":"assistant","content":"one"}},{"message":{"content":"two"}}]}"#;
    assert_eq!(interpret_chat_response(201, body), Ok(Some("one".to_string())));
}

#[test]
fn rejected_request_reports_status_and_body() {
    let body = r#"{"error":"bad key"}"#;
    match interpret_chat_response(401, body) {
        Err(ClientError::ApiFailure { status, message, .. }) => {
            assert_eq!(status, 401);
            assert!(message.contains("bad key"));
            assert_eq!(message, body);
        }
        other => panic!("expected a failure of the API, got {:?}", other),
    }
}

#[test]
fn unexpected_success_body_is_a_shape_mismatch() {
    for body in [
        "not json",
        "[]",
        r#"{"choices":"none"}"#,
        r#"{"choice":[]}"#,
        r#"{"choices":[{}]}"#,
        r#"{"choices":[{"message":"hi"}]}"#,
        r#"{"choices":[{"message":{"content":5}}]}"#,
        r#"{"choices":[{"message":{"content":"ok"}},{"message":7}]}"#,
    ] {
        assert_eq!(interpret_chat_response(200, body), Err(ClientError::ResponseShapeMismatch { operation: Operation::ChatCompletion }));
    }
}

#[test]
fn chat_content_reads_values() {
    let message = Json::Object(vec![Member {
        key: "content".to_string(),
        value: Json::Text("hello".to_string()),
    }]);
    let choice = Json::Object(vec![Member { key: "message".to_string(), value: message }]);
    let doc =
        Json::Object(vec![Member { key: "choices".to_string(), value: Json::Array(vec![choice]) }]);
    assert_eq!(chat_content(&doc), Ok(Some("hello".to_string())));
    assert_eq!(chat_content(&Json::Null), Err(ClientError::ResponseShapeMismatch { operation: Operation::ChatCompletion }));
    assert_eq!(chat_from_response(200, "", Some(doc)), Ok(Some("hello".to_string())));
    assert_eq!(chat_from_response(200, "", None), Err(ClientError::ResponseShapeMismatch { operation: Operation::ChatCompletion }));
    assert_eq!(
        chat_from_response(500, "oops", None),
        Err(ClientError::ApiFailure { operation: Operation::ChatCompletion, status: 500, message: "oops".to_string(), service_message: false })
    );
}

#[test]
fn request_body_is_a_single_user_message() {
    let request = chat_request_body("gpt-4o-mini", "Fix this text".to_string());
    assert_eq!(request.model, "gpt-4o-mini");
    assert_eq!(request.messages.len(), 1);
    assert_eq!(request.messages[0].role, "user");
    assert_eq!(request.messages[0].content, "Fix this text");
}

#[test]
fn success_is_the_two_hundreds() {
    assert!(!status_is_success(199));
    assert!(status_is_success(200));
    assert!(status_is_success(204));
    assert!(status_is_success(299));
    assert!(!status_is_success(300));
    assert!(!status_is_success(401));
}

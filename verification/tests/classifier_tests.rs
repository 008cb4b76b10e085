use rust_mcp_schema::{
    detect_message_type, Envelope, JsonValue, JsonrpcError, McpMessage, MessagePayload,
    MessageTypes, RequestId, RpcErrorCodes,
};

fn obj(entries: Vec<(&str, JsonValue)>) -> JsonValue {
    JsonValue::Object(entries.into_iter().map(|(k, v)| (k.to_string(), v)).collect())
}

fn text(s: &str) -> JsonValue {
    JsonValue::Text(s.to_string())
}

fn empty_params() -> JsonValue {
    JsonValue::Object(Vec::new())
}

#[test]
fn test_detect_message_type() {
    // standard request
    let message = Envelope::build(
        MessagePayload::Request { method: "ping".to_string(), params: empty_params() },
        Some(RequestId::Integer(0)),
    )
    .unwrap();
    let result = detect_message_type(&message.serialize());
    assert!(matches!(result, MessageTypes::Request));

    // custom request
    let result = detect_message_type(&obj(vec![
        ("id", JsonValue::Number(0)),
        ("method", text("add_numbers")),
        ("params", empty_params()),
        ("jsonrpc", text("2.0")),
    ]));
    assert!(matches!(result, MessageTypes::Request));

    // standard notification
    let message = Envelope::build(
        MessagePayload::Notification {
            method: "notifications/roots/list_changed".to_string(),
            params: empty_params(),
        },
        None,
    )
    .unwrap();
    let result = detect_message_type(&message.serialize());
    assert!(matches!(result, MessageTypes::Notification));

    // custom notification
    let result = detect_message_type(&obj(vec![
        ("method", text("notifications/email_sent")),
        ("jsonrpc", text("2.0")),
    ]));
    assert!(matches!(result, MessageTypes::Notification));

    // standard response
    let message = Envelope::build(
        MessagePayload::Response { result: obj(vec![("roots", JsonValue::Array(Vec::new()))]) },
        Some(RequestId::Integer(0)),
    )
    .unwrap();
    let result = detect_message_type(&message.serialize());
    assert!(matches!(result, MessageTypes::Response));

    // custom response
    let result = detect_message_type(&obj(vec![
        ("id", JsonValue::Number(1)),
        ("jsonrpc", text("2.0")),
        ("result", text("{}")),
    ]));
    assert!(matches!(result, MessageTypes::Response));

    // error message
    let message = JsonrpcError::create(
        RequestId::Integer(0),
        RpcErrorCodes::INVALID_PARAMS,
        "Invalid params!".to_string(),
        None,
    );
    let result = detect_message_type(&Envelope::Error(message).serialize());
    assert!(matches!(result, MessageTypes::Error));

    // default
    let result = detect_message_type(&obj(vec![]));
    assert!(matches!(result, MessageTypes::Request));
}

#[test]
fn schema_utils_test_detect_message_type() {
    // The same eight cases, read back through the text boundary.
    let request = Envelope::from_str(r#"{"id":0,"jsonrpc":"2.0","method":"ping"}"#).unwrap();
    assert!(matches!(request.message_type(), MessageTypes::Request));

    let result = detect_message_type(&obj(vec![
        ("id", JsonValue::Number(0)),
        ("method", text("add_numbers")),
        ("params", empty_params()),
        ("jsonrpc", text("2.0")),
    ]));
    assert!(matches!(result, MessageTypes::Request));

    let result = detect_message_type(&obj(vec![
        ("method", text("notifications/email_sent")),
        ("jsonrpc", text("2.0")),
    ]));
    assert!(matches!(result, MessageTypes::Notification));

    let result = detect_message_type(&obj(vec![
        ("id", JsonValue::Number(1)),
        ("jsonrpc", text("2.0")),
        ("result", text("{}")),
    ]));
    assert!(matches!(result, MessageTypes::Response));

    let result = detect_message_type(&obj(vec![]));
    assert!(matches!(result, MessageTypes::Request));
}

#[test]
fn test_display_request() {
    assert_eq!(MessageTypes::Request.to_string(), "Request");
}

#[test]
fn test_display_response() {
    assert_eq!(MessageTypes::Response.to_string(), "Response");
}

#[test]
fn test_display_notification() {
    assert_eq!(MessageTypes::Notification.to_string(), "Notification");
}

#[test]
fn test_display_error() {
    assert_eq!(MessageTypes::Error.to_string(), "Error");
}

#[test]
fn test_classifier_truth_table() {
    let error_doc = obj(vec![
        ("id", JsonValue::Number(1)),
        ("error", obj(vec![("code", JsonValue::Number(-32603)), ("message", text("boom"))])),
    ]);
    assert_eq!(detect_message_type(&error_doc), MessageTypes::Error);

    let response_doc =
        obj(vec![("id", JsonValue::Number(1)), ("result", obj(vec![("ok", JsonValue::Bool(true))]))]);
    assert_eq!(detect_message_type(&response_doc), MessageTypes::Response);

    let request_doc = obj(vec![("id", JsonValue::Number(1)), ("method", text("ping"))]);
    assert_eq!(detect_message_type(&request_doc), MessageTypes::Request);

    let notification_doc = obj(vec![("method", text("notifications/cancelled"))]);
    assert_eq!(detect_message_type(&notification_doc), MessageTypes::Notification);

    let empty_doc = obj(vec![]);
    assert_eq!(detect_message_type(&empty_doc), MessageTypes::Request);
}

#[test]
fn test_classifier_non_object_defaults_to_request() {
    assert_eq!(detect_message_type(&JsonValue::Null), MessageTypes::Request);
    assert_eq!(detect_message_type(&text("ping")), MessageTypes::Request);
    assert_eq!(detect_message_type(&JsonValue::Array(vec![])), MessageTypes::Request);
}

#[test]
fn test_classifier_error_beats_result_and_method() {
    let doc = obj(vec![
        ("id", JsonValue::Number(7)),
        ("error", obj(vec![])),
        ("result", obj(vec![])),
        ("method", text("ping")),
    ]);
    assert_eq!(detect_message_type(&doc), MessageTypes::Error);
}

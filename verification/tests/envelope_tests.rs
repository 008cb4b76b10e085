use rust_mcp_schema::{
    detect_message_type, Envelope, FromMessage, JsonValue, JsonrpcError, JsonrpcNotification,
    JsonrpcRequest, JsonrpcResponse, McpMessage, MessagePayload, MessageTypes, RequestId,
    RpcError, RpcMessage, ToMessage,
};

fn obj(entries: Vec<(&str, JsonValue)>) -> JsonValue {
    JsonValue::Object(entries.into_iter().map(|(k, v)| (k.to_string(), v)).collect())
}

fn text(s: &str) -> JsonValue {
    JsonValue::Text(s.to_string())
}

fn sample_request() -> Envelope {
    Envelope::Request(JsonrpcRequest::new(
        RequestId::Integer(3),
        "tools/call".to_string(),
        obj(vec![("name", text("echo"))]),
    ))
}

fn sample_notification() -> Envelope {
    Envelope::Notification(JsonrpcNotification::new(
        "notifications/progress".to_string(),
        obj(vec![("progress", JsonValue::Number(50))]),
    ))
}

fn sample_response() -> Envelope {
    Envelope::Response(JsonrpcResponse::new(
        RequestId::Str("a1".to_string()),
        obj(vec![("tools", JsonValue::Array(vec![]))]),
    ))
}

fn sample_error() -> Envelope {
    Envelope::Error(JsonrpcError::new(
        RpcError::method_not_found().with_data(Some(text("details"))),
        RequestId::Integer(9),
    ))
}

#[test]
fn test_build_id_rules() {
    let request = MessagePayload::Request { method: "ping".to_string(), params: JsonValue::Null };
    assert!(Envelope::build(request, Some(RequestId::Integer(1))).is_ok());

    let request = MessagePayload::Request { method: "ping".to_string(), params: JsonValue::Null };
    let refused = Envelope::build(request, None);
    assert_eq!(refused.unwrap_err().code, -32603);

    let notification =
        MessagePayload::Notification { method: "notifications/initialized".to_string(), params: JsonValue::Null };
    assert!(Envelope::build(notification, None).is_ok());

    let notification =
        MessagePayload::Notification { method: "notifications/initialized".to_string(), params: JsonValue::Null };
    let refused = Envelope::build(notification, Some(RequestId::Integer(1)));
    assert_eq!(refused.unwrap_err().code, -32603);

    let response = MessagePayload::Response { result: JsonValue::Null };
    assert!(Envelope::build(response, Some(RequestId::Str("r".to_string()))).is_ok());
    let response = MessagePayload::Response { result: JsonValue::Null };
    assert!(Envelope::build(response, None).is_err());

    let error = MessagePayload::Error(RpcError::internal_error());
    assert!(Envelope::build(error, Some(RequestId::Integer(0))).is_ok());
    let error = MessagePayload::Error(RpcError::internal_error());
    assert!(Envelope::build(error, None).is_err());
}

#[test]
fn test_from_message_and_to_message() {
    let payload = MessagePayload::Request { method: "ping".to_string(), params: JsonValue::Null };
    let envelope = Envelope::from_message(payload, Some(RequestId::Integer(1))).unwrap();
    assert!(envelope.is_request());

    let payload = MessagePayload::Response { result: JsonValue::Null };
    let envelope: Envelope = payload.to_message(Some(RequestId::Integer(2))).unwrap();
    assert!(envelope.is_response());
}

#[test]
fn test_narrowing_by_kind() {
    assert!(sample_request().as_request().is_ok());
    assert!(sample_response().as_response().is_ok());
    assert!(sample_notification().as_notification().is_ok());
    assert!(sample_error().as_error().is_ok());

    let err = sample_request().as_response().unwrap_err();
    assert_eq!(err.code, -32603);
    assert_eq!(err.message, "Invalid message type");
    match err.data {
        Some(JsonValue::Object(entries)) => {
            assert_eq!(entries[0].0, "expected");
            assert_eq!(entries[0].1, text("Response"));
            assert_eq!(entries[1].0, "received");
            assert_eq!(entries[1].1, text("Request"));
        },
        other => panic!("unexpected narrowing data: {:?}", other),
    }
    assert!(sample_notification().as_error().is_err());
    assert!(sample_error().as_request().is_err());
    assert!(sample_response().as_notification().is_err());
}

#[test]
fn test_round_trip_request() {
    let encoded = sample_request().serialize();
    assert_eq!(detect_message_type(&encoded), MessageTypes::Request);
    assert_eq!(Envelope::deserialize(encoded).unwrap(), sample_request());
}

#[test]
fn test_round_trip_notification() {
    let encoded = sample_notification().serialize();
    assert_eq!(detect_message_type(&encoded), MessageTypes::Notification);
    assert_eq!(Envelope::deserialize(encoded).unwrap(), sample_notification());
}

#[test]
fn test_round_trip_response() {
    let encoded = sample_response().serialize();
    assert_eq!(detect_message_type(&encoded), MessageTypes::Response);
    assert_eq!(Envelope::deserialize(encoded).unwrap(), sample_response());
}

#[test]
fn test_round_trip_error() {
    let encoded = sample_error().serialize();
    assert_eq!(detect_message_type(&encoded), MessageTypes::Error);
    assert_eq!(Envelope::deserialize(encoded).unwrap(), sample_error());
}

#[test]
fn test_deserialize_with_wrong_jsonrpc_version() {
    let payload = r#"{"error":{"code":-32603,"message":"Internal error"},"id":0,"jsonrpc":"1.0"}"#;
    let result = Envelope::from_str(payload);
    let err = result.unwrap_err();
    assert_eq!(err.code, -32600);
    match err.data {
        Some(JsonValue::Object(entries)) => {
            assert_eq!(entries[0], ("field".to_string(), text("jsonrpc")));
            assert_eq!(entries[1], ("expected".to_string(), text("2.0")));
            assert_eq!(entries[2], ("actual".to_string(), text("1.0")));
        },
        other => panic!("unexpected mismatch data: {:?}", other),
    }
}

#[test]
fn test_deserialize_rejects_missing_marker_and_stray_fields() {
    let no_marker = obj(vec![("id", JsonValue::Number(1)), ("method", text("ping"))]);
    assert_eq!(Envelope::deserialize(no_marker).unwrap_err().code, -32600);

    let stray = obj(vec![
        ("id", JsonValue::Number(1)),
        ("jsonrpc", text("2.0")),
        ("method", text("ping")),
        ("extra", JsonValue::Bool(true)),
    ]);
    assert_eq!(Envelope::deserialize(stray).unwrap_err().code, -32600);

    let not_an_object = text("hello");
    assert_eq!(Envelope::deserialize(not_an_object).unwrap_err().code, -32700);

    let empty = obj(vec![("jsonrpc", text("2.0"))]);
    assert_eq!(Envelope::deserialize(empty).unwrap_err().code, -32600);
}

#[test]
fn test_deserialize_accepts_any_field_order() {
    let doc = obj(vec![
        ("params", obj(vec![("name", text("echo"))])),
        ("method", text("tools/call")),
        ("jsonrpc", text("2.0")),
        ("id", JsonValue::Number(3)),
    ]);
    assert_eq!(Envelope::deserialize(doc).unwrap(), sample_request());
}

#[test]
fn test_text_round_trip() {
    let rendered = sample_error().to_string();
    assert_eq!(Envelope::from_str(&rendered).unwrap(), sample_error());

    let rendered = sample_request().to_string();
    assert_eq!(Envelope::from_str(&rendered).unwrap(), sample_request());
}

#[test]
fn test_from_str_parses_wire_text() {
    let json = r#"{"jsonrpc": "2.0", "method": "initialize", "id": 1}"#;
    let request = Envelope::from_str(json).unwrap();
    assert!(request.is_initialize_request());
    assert_eq!(
        request,
        Envelope::Request(JsonrpcRequest::new(
            RequestId::Integer(1),
            "initialize".to_string(),
            JsonValue::Null,
        ))
    );

    assert_eq!(Envelope::from_str("not json at all").unwrap_err().code, -32700);
    assert_eq!(Envelope::from_str("[1,2]").unwrap_err().code, -32700);
}

#[test]
fn test_shape_from_str() {
    let request = JsonrpcRequest::from_str(r#"{"jsonrpc":"2.0","method":"ping","id":7}"#).unwrap();
    assert_eq!(request.method, "ping");
    assert_eq!(request.id, RequestId::Integer(7));
    assert!(JsonrpcRequest::from_str(r#"{"jsonrpc":"2.0","method":"ping"}"#).is_err());

    let notification =
        JsonrpcNotification::from_str(r#"{"jsonrpc":"2.0","method":"notifications/progress"}"#)
            .unwrap();
    assert_eq!(notification.method, "notifications/progress");
    assert!(JsonrpcNotification::from_str(r#"{"jsonrpc":"2.0","method":"x","id":1}"#).is_err());

    let response =
        JsonrpcResponse::from_str(r#"{"jsonrpc":"2.0","id":"r","result":{}}"#).unwrap();
    assert_eq!(response.id, RequestId::Str("r".to_string()));
    assert_eq!(response.result, JsonValue::Object(vec![]));

    let error = JsonrpcError::from_str(
        r#"{"jsonrpc":"2.0","id":0,"error":{"code":-32601,"message":"Method not found"}}"#,
    )
    .unwrap();
    assert_eq!(error.error.code, -32601);
    assert_eq!(error.error.message, "Method not found");
    assert_eq!(error.error.data, None);
}

#[test]
fn test_transport_metadata_access() {
    let request = sample_request();
    assert_eq!(request.jsonrpc(), "2.0");
    assert_eq!(request.request_id(), Some(&RequestId::Integer(3)));
    assert_eq!(sample_notification().request_id(), None);
    assert_eq!(sample_response().request_id(), Some(&RequestId::Str("a1".to_string())));
    assert_eq!(sample_error().request_id(), Some(&RequestId::Integer(9)));

    assert_eq!(sample_request().message_type(), MessageTypes::Request);
    assert!(sample_request().is_request());
    assert!(!sample_request().is_error());
    assert!(sample_error().is_error());
    assert!(sample_notification().is_notification());
    assert!(sample_response().is_response());
}

#[test]
fn test_request_id_equality() {
    assert_eq!(RequestId::Integer(1), RequestId::Integer(1));
    assert_ne!(RequestId::Integer(1), RequestId::Integer(2));
    assert_eq!(RequestId::Str("1".to_string()), RequestId::Str("1".to_string()));
    // Ids of different variants are never equal, even when they read alike.
    assert_ne!(RequestId::Str("1".to_string()), RequestId::Integer(1));
}

#[test]
fn test_initialize_detection() {
    let init = Envelope::Request(JsonrpcRequest::new(
        RequestId::Integer(0),
        "initialize".to_string(),
        JsonValue::Null,
    ));
    assert!(init.is_initialize_request());
    assert!(!sample_request().is_initialize_request());

    let done = Envelope::Notification(JsonrpcNotification::new(
        "notifications/initialized".to_string(),
        JsonValue::Null,
    ));
    assert!(done.is_initialized_notification());
    assert!(!sample_notification().is_initialized_notification());

    let payload = MessagePayload::Request { method: "initialize".to_string(), params: JsonValue::Null };
    assert!(payload.is_initialize_request());
    assert_eq!(payload.method(), Some(&"initialize".to_string()));
    let payload = MessagePayload::Notification {
        method: "notifications/initialized".to_string(),
        params: JsonValue::Null,
    };
    assert!(payload.is_initialized_notification());
    let payload = MessagePayload::Response { result: JsonValue::Null };
    assert_eq!(payload.method(), None);
}

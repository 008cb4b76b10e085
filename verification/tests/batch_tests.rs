use rust_mcp_schema::{
    Envelope, JsonValue, JsonrpcError, JsonrpcNotification, JsonrpcRequest, JsonrpcResponse,
    MessageBatch, RequestId, RpcError,
};

fn notification() -> Envelope {
    Envelope::Notification(JsonrpcNotification::new(
        "notifications/cancelled".to_string(),
        JsonValue::Object(vec![]),
    ))
}

fn request() -> Envelope {
    Envelope::Request(JsonrpcRequest::new(
        RequestId::Integer(1),
        "ping".to_string(),
        JsonValue::Null,
    ))
}

fn response() -> Envelope {
    Envelope::Response(JsonrpcResponse::new(RequestId::Integer(1), JsonValue::Object(vec![])))
}

fn error_envelope() -> Envelope {
    Envelope::Error(JsonrpcError::new(RpcError::internal_error(), RequestId::Integer(2)))
}

#[test]
fn test_batch_narrowing() {
    assert!(MessageBatch::Single(request()).as_single().is_ok());
    assert!(MessageBatch::Batch(vec![request()]).as_batch().is_ok());

    let err = MessageBatch::Single(request()).as_batch().unwrap_err();
    assert_eq!(err.code, -32603);
    assert_eq!(
        err.message,
        "Error: cannot convert MessageBatch::Single to MessageBatch::Batch"
    );

    let err = MessageBatch::Batch(vec![request()]).as_single().unwrap_err();
    assert_eq!(err.code, -32603);
    assert_eq!(
        err.message,
        "Error: cannot convert MessageBatch::Batch to MessageBatch::Single"
    );
}

#[test]
fn test_from_conversions() {
    let single: MessageBatch = request().into();
    assert!(!single.is_batch());
    let batch: MessageBatch = vec![request(), response()].into();
    assert!(batch.is_batch());

    let envelope: Envelope = JsonrpcRequest::new(
        RequestId::Integer(1),
        "ping".to_string(),
        JsonValue::Null,
    )
    .into();
    assert_eq!(envelope, request());
    let envelope: Envelope =
        JsonrpcError::new(RpcError::internal_error(), RequestId::Integer(2)).into();
    assert_eq!(envelope, error_envelope());
}

#[test]
fn test_is_batch() {
    assert!(!MessageBatch::Single(request()).is_batch());
    assert!(MessageBatch::Batch(vec![]).is_batch());
}

#[test]
fn test_includes_request() {
    let with_request = MessageBatch::Batch(vec![notification(), request(), response()]);
    assert!(with_request.includes_request());

    let without_request = MessageBatch::Batch(vec![notification(), response()]);
    assert!(!without_request.includes_request());

    assert!(MessageBatch::Single(request()).includes_request());
    assert!(!MessageBatch::Single(response()).includes_request());
    assert!(!MessageBatch::Batch(vec![]).includes_request());
}

#[test]
fn test_batch_serialize_round_trip() {
    let batch = MessageBatch::Batch(vec![notification(), request(), error_envelope()]);
    let encoded = batch.serialize();
    let decoded = MessageBatch::deserialize(encoded).unwrap();
    assert_eq!(
        decoded,
        MessageBatch::Batch(vec![notification(), request(), error_envelope()])
    );

    let single = MessageBatch::Single(response());
    let decoded = MessageBatch::deserialize(single.serialize()).unwrap();
    assert_eq!(decoded, MessageBatch::Single(response()));
}

#[test]
fn test_batch_from_text() {
    let wire = r#"[
        {"jsonrpc":"2.0","method":"notifications/cancelled","params":{}},
        {"jsonrpc":"2.0","method":"ping","id":1}
    ]"#;
    let decoded = MessageBatch::from_str(wire).unwrap();
    match &decoded {
        MessageBatch::Batch(messages) => assert_eq!(messages.len(), 2),
        other => panic!("expected a batch, got {:?}", other),
    }
    assert!(decoded.includes_request());

    let wire = r#"{"jsonrpc":"2.0","method":"ping","id":1}"#;
    let decoded = MessageBatch::from_str(wire).unwrap();
    assert!(!decoded.is_batch());

    assert_eq!(MessageBatch::from_str("true").unwrap_err().code, -32700);
    assert_eq!(MessageBatch::from_str("{{nope").unwrap_err().code, -32700);
}

#[test]
fn test_batch_element_rejection_propagates() {
    let wire = r#"[{"jsonrpc":"1.0","method":"ping","id":1}]"#;
    let err = MessageBatch::from_str(wire).unwrap_err();
    assert_eq!(err.code, -32600);
}

#[test]
fn test_batch_text_round_trip() {
    let batch = MessageBatch::Batch(vec![request(), response()]);
    let rendered = batch.to_string();
    let decoded = MessageBatch::from_str(&rendered).unwrap();
    assert_eq!(decoded, MessageBatch::Batch(vec![request(), response()]));
}

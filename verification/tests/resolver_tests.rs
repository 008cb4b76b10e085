use rust_mcp_schema::{
    client_notification_vocabulary, client_request_vocabulary, resolve,
    server_notification_vocabulary, server_request_vocabulary, JsonValue, ProtocolVersion,
    ResolvedPayload, Shape, Vocabulary,
};

fn obj(entries: Vec<(&str, JsonValue)>) -> JsonValue {
    JsonValue::Object(entries.into_iter().map(|(k, v)| (k.to_string(), v)).collect())
}

fn text(s: &str) -> JsonValue {
    JsonValue::Text(s.to_string())
}

fn unknown_payload() -> JsonValue {
    obj(vec![("method", text("x/unknownMethod")), ("params", obj(vec![]))])
}

#[test]
fn test_resolve_unknown_method_yields_custom() {
    let vocabulary = client_request_vocabulary(&ProtocolVersion::V2025_03_26);
    let resolved = resolve(&vocabulary, unknown_payload()).unwrap();
    match resolved {
        ResolvedPayload::Custom(raw) => assert_eq!(raw, unknown_payload()),
        other => panic!("expected the custom fallback, got {:?}", other),
    }
}

#[test]
fn test_resolve_known_method_wins_by_index() {
    let vocabulary = client_request_vocabulary(&ProtocolVersion::V2025_03_26);
    let payload = obj(vec![("method", text("resources/list")), ("params", obj(vec![]))]);
    let resolved = resolve(&vocabulary, payload).unwrap();
    match resolved {
        ResolvedPayload::Known(index, raw) => {
            assert_eq!(index, 2);
            assert_eq!(
                raw,
                obj(vec![("method", text("resources/list")), ("params", obj(vec![]))])
            );
        },
        other => panic!("expected a known shape, got {:?}", other),
    }
}

#[test]
fn test_resolve_first_match_is_declaration_order() {
    let methods = vec!["ping".to_string(), "ping".to_string()];
    let vocabulary = Vocabulary::from_methods(&methods);
    let payload = obj(vec![("method", text("ping"))]);
    match resolve(&vocabulary, payload).unwrap() {
        ResolvedPayload::Known(index, _) => assert_eq!(index, 0),
        other => panic!("expected a known shape, got {:?}", other),
    }
}

#[test]
fn test_resolve_non_object_is_a_parse_error() {
    let vocabulary = client_request_vocabulary(&ProtocolVersion::V2024_11_05);
    assert_eq!(resolve(&vocabulary, text("ping")).unwrap_err().code, -32700);
    assert_eq!(resolve(&vocabulary, JsonValue::Null).unwrap_err().code, -32700);
    assert_eq!(resolve(&vocabulary, JsonValue::Array(vec![])).unwrap_err().code, -32700);
}

#[test]
fn test_resolve_wrong_constant_falls_through() {
    // A constant field that is present but reads differently must not match.
    let vocabulary = Vocabulary::from_methods(&vec!["ping".to_string()]);
    let payload = obj(vec![("method", text("pong"))]);
    assert!(matches!(
        resolve(&vocabulary, payload).unwrap(),
        ResolvedPayload::Custom(_)
    ));
    // So must a payload without the constant field at all.
    let payload = obj(vec![("params", obj(vec![]))]);
    assert!(matches!(
        resolve(&vocabulary, payload).unwrap(),
        ResolvedPayload::Custom(_)
    ));
}

#[test]
fn test_resolve_required_fields() {
    let shape = Shape {
        constants: vec![],
        required: vec!["tools".to_string()],
    };
    let vocabulary = Vocabulary { shapes: vec![shape] };
    let with_field = obj(vec![("tools", JsonValue::Array(vec![]))]);
    assert!(matches!(
        resolve(&vocabulary, with_field).unwrap(),
        ResolvedPayload::Known(0, _)
    ));
    let without_field = obj(vec![("prompts", JsonValue::Array(vec![]))]);
    assert!(matches!(
        resolve(&vocabulary, without_field).unwrap(),
        ResolvedPayload::Custom(_)
    ));
}

#[test]
fn test_shape_for_method() {
    let shape = Shape::for_method("tools/call");
    assert_eq!(shape.constants.len(), 1);
    assert_eq!(shape.constants[0], ("method".to_string(), "tools/call".to_string()));
    assert!(shape.required.is_empty());
}

#[test]
fn test_vocabulary_tables() {
    let client_requests = client_request_vocabulary(&ProtocolVersion::V2024_11_05);
    assert_eq!(client_requests.shapes.len(), 13);
    assert_eq!(client_requests.shapes[0].constants[0].1, "initialize");
    assert_eq!(client_requests.shapes[12].constants[0].1, "completion/complete");

    let client_notifications = client_notification_vocabulary(&ProtocolVersion::V2025_03_26);
    assert_eq!(client_notifications.shapes.len(), 4);
    assert_eq!(client_notifications.shapes[1].constants[0].1, "notifications/initialized");

    let old_server_requests = server_request_vocabulary(&ProtocolVersion::V2025_03_26);
    assert_eq!(old_server_requests.shapes.len(), 3);
    let new_server_requests = server_request_vocabulary(&ProtocolVersion::V2025_06_18);
    assert_eq!(new_server_requests.shapes.len(), 4);
    assert_eq!(new_server_requests.shapes[3].constants[0].1, "elicitation/create");
    let draft_server_requests = server_request_vocabulary(&ProtocolVersion::Draft);
    assert_eq!(draft_server_requests.shapes.len(), 4);

    let server_notifications = server_notification_vocabulary(&ProtocolVersion::V2024_11_05);
    assert_eq!(server_notifications.shapes.len(), 7);
    assert_eq!(server_notifications.shapes[6].constants[0].1, "notifications/message");
}

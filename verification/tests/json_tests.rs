use rust_mcp_schema::{find, take_first, JsonValue};

fn entries(pairs: Vec<(&str, JsonValue)>) -> Vec<(String, JsonValue)> {
    pairs.into_iter().map(|(k, v)| (k.to_string(), v)).collect()
}

#[test]
fn test_find_first_entry_wins() {
    let object = entries(vec![
        ("a", JsonValue::Number(1)),
        ("b", JsonValue::Number(2)),
        ("a", JsonValue::Number(3)),
    ]);
    assert_eq!(find(&object, "a"), Some(&JsonValue::Number(1)));
    assert_eq!(find(&object, "b"), Some(&JsonValue::Number(2)));
    assert_eq!(find(&object, "c"), None);
}

#[test]
fn test_take_first_leaves_other_fields() {
    let mut object = entries(vec![
        ("a", JsonValue::Number(1)),
        ("b", JsonValue::Number(2)),
        ("a", JsonValue::Number(3)),
    ]);
    assert_eq!(take_first(&mut object, "a"), Some(JsonValue::Number(1)));
    // The later duplicate moves up to be the first "a"; "b" is untouched.
    assert_eq!(find(&object, "a"), Some(&JsonValue::Number(3)));
    assert_eq!(find(&object, "b"), Some(&JsonValue::Number(2)));
    assert_eq!(take_first(&mut object, "missing"), None);
    assert_eq!(object.len(), 2);
}

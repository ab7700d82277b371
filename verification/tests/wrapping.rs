use vault_gateway::JsonValue;
use vault_gateway::to_json_string;
use vault_gateway::wrap_payload;

fn obj(fields: Vec<(&str, JsonValue)>) -> JsonValue {
    JsonValue::Obj(fields.into_iter().map(|(k, v)| (k.to_string(), v)).collect())
}

fn s(text: &str) -> JsonValue {
    JsonValue::Str(text.to_string())
}

#[test]
fn test_kv_wrapper_structure() {
    // Vault KV V2 expects data to be wrapped in a "data" field.
    let raw_data = obj(vec![("key", s("value"))]);
    let wrapped = wrap_payload(raw_data);

    assert_eq!(wrapped.get("data").unwrap().get("key").unwrap(), &s("value"));
}

#[test]
fn test_profile_mock_structure() {
    let profile = obj(vec![
        ("name", s("Dev")),
        ("url", s("http://localhost:8200")),
        ("token", s("hvs.test")),
    ]);
    assert_eq!(profile.get("name").unwrap(), &s("Dev"));
}

#[test]
fn wrapping_adds_exactly_one_level() {
    let payload = obj(vec![("data", s("inner"))]);
    let wrapped = wrap_payload(payload);
    // The caller's own "data" key is opaque to the gateway: one envelope
    // around it, no merging, no double wrap.
    let inner = wrapped.get("data").unwrap();
    assert_eq!(inner.get("data").unwrap(), &s("inner"));
    assert_eq!(to_json_string(&wrapped), "{\"data\":{\"data\":\"inner\"}}");
}

#[test]
fn lookup_returns_first_binding() {
    let doc = obj(vec![("k", s("first")), ("k", s("second"))]);
    assert_eq!(doc.get("k").unwrap(), &s("first"));
    assert!(doc.get("absent").is_none());
    assert!(s("scalar").get("k").is_none());
}

#[test]
fn serializes_scalars_exactly() {
    assert_eq!(to_json_string(&JsonValue::Null), "null");
    assert_eq!(to_json_string(&JsonValue::Bool(true)), "true");
    assert_eq!(to_json_string(&JsonValue::Bool(false)), "false");
    assert_eq!(to_json_string(&JsonValue::Int(0)), "0");
    assert_eq!(to_json_string(&JsonValue::Int(-42)), "-42");
    assert_eq!(to_json_string(&JsonValue::Int(i64::MAX)), "9223372036854775807");
    assert_eq!(to_json_string(&JsonValue::Int(i64::MIN)), "-9223372036854775808");
    assert_eq!(to_json_string(&s("plain")), "\"plain\"");
}

#[test]
fn serializes_escapes_exactly() {
    assert_eq!(to_json_string(&s("a\"b")), "\"a\\\"b\"");
    assert_eq!(to_json_string(&s("a\\b")), "\"a\\\\b\"");
    assert_eq!(to_json_string(&s("a\nb\tc")), "\"a\\u000ab\\u0009c\"");
}

#[test]
fn serializes_collections_exactly() {
    let doc = obj(vec![
        ("list", JsonValue::Arr(vec![JsonValue::Int(1), JsonValue::Int(2), JsonValue::Null])),
        ("empty", JsonValue::Arr(vec![])),
        ("nested", obj(vec![])),
    ]);
    assert_eq!(
        to_json_string(&doc),
        "{\"list\":[1,2,null],\"empty\":[],\"nested\":{}}"
    );
}

#[test]
fn serialized_text_is_valid_json() {
    let doc = obj(vec![
        ("name", s("Dev\n\"ops\"")),
        ("count", JsonValue::Int(-7)),
        ("on", JsonValue::Bool(true)),
        ("items", JsonValue::Arr(vec![s("a"), JsonValue::Int(3)])),
    ]);
    let text = to_json_string(&doc);
    let parsed: serde_json::Value = serde_json::from_str(&text).unwrap();

    let mut items = Vec::new();
    items.push(serde_json::Value::String("a".to_string()));
    items.push(serde_json::Value::from(3));
    let mut expected = serde_json::Map::new();
    expected.insert("name".to_string(), serde_json::Value::String("Dev\n\"ops\"".to_string()));
    expected.insert("count".to_string(), serde_json::Value::from(-7));
    expected.insert("on".to_string(), serde_json::Value::Bool(true));
    expected.insert("items".to_string(), serde_json::Value::Array(items));
    assert_eq!(parsed, serde_json::Value::Object(expected));
}

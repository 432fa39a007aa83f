use simple_agent::json::i64_to_string;
use simple_agent::json::to_json_text;
use simple_agent::json::u64_to_string;
use simple_agent::JsonValue;

#[test]
fn decimal_formatting() {
    assert_eq!(u64_to_string(0), "0");
    assert_eq!(u64_to_string(7), "7");
    assert_eq!(u64_to_string(1234567890), "1234567890");
    assert_eq!(u64_to_string(u64::MAX), "18446744073709551615");
    assert_eq!(i64_to_string(0), "0");
    assert_eq!(i64_to_string(-1), "-1");
    assert_eq!(i64_to_string(-987), "-987");
    assert_eq!(i64_to_string(i64::MIN), "-9223372036854775808");
    assert_eq!(i64_to_string(i64::MAX), "9223372036854775807");
}

#[test]
fn serializes_scalars() {
    assert_eq!(to_json_text(&JsonValue::Null), "null");
    assert_eq!(to_json_text(&JsonValue::Bool(true)), "true");
    assert_eq!(to_json_text(&JsonValue::Bool(false)), "false");
    assert_eq!(to_json_text(&JsonValue::Int(-42)), "-42");
    assert_eq!(to_json_text(&JsonValue::Num("1.5".to_string())), "1.5");
    assert_eq!(
        to_json_text(&JsonValue::Str("hello".to_string())),
        "\"hello\""
    );
}

#[test]
fn serializes_escapes() {
    let v = JsonValue::Str("a\"b\\c\nd\re\tf".to_string());
    assert_eq!(to_json_text(&v), "\"a\\\"b\\\\c\\nd\\re\\tf\"");
}

#[test]
fn serializes_nested_structures() {
    let v = JsonValue::Obj(vec![
        ("name".to_string(), JsonValue::Str("echo".to_string())),
        (
            "args".to_string(),
            JsonValue::Arr(vec![
                JsonValue::Int(1),
                JsonValue::Null,
                JsonValue::Obj(Vec::new()),
            ]),
        ),
    ]);
    assert_eq!(
        to_json_text(&v),
        "{\"name\":\"echo\",\"args\":[1,null,{}]}"
    );
}

#[test]
fn serialized_text_parses_back_with_serde() {
    let v = JsonValue::Obj(vec![
        ("x".to_string(), JsonValue::Int(3)),
        ("y".to_string(), JsonValue::Arr(vec![JsonValue::Bool(false)])),
        ("z".to_string(), JsonValue::Str("line\nbreak".to_string())),
    ]);
    let text = to_json_text(&v);
    let parsed: serde_json::Value = serde_json::from_str(&text).unwrap();
    assert_eq!(parsed["x"], serde_json::Value::from(3));
    assert_eq!(parsed["y"][0], serde_json::Value::from(false));
    assert_eq!(parsed["z"], serde_json::Value::from("line\nbreak"));
}

#[test]
fn lookup_finds_first_match() {
    let v = JsonValue::Obj(vec![
        ("a".to_string(), JsonValue::Int(1)),
        ("b".to_string(), JsonValue::Int(2)),
        ("a".to_string(), JsonValue::Int(3)),
    ]);
    assert_eq!(v.get("a"), Some(&JsonValue::Int(1)));
    assert_eq!(v.get("b"), Some(&JsonValue::Int(2)));
    assert_eq!(v.get("c"), None);
    assert_eq!(JsonValue::Null.get("a"), None);
}

#[test]
fn duplicate_is_equal() {
    let v = JsonValue::Arr(vec![
        JsonValue::Obj(vec![("k".to_string(), JsonValue::Str("v".to_string()))]),
        JsonValue::Num("2.25".to_string()),
    ]);
    assert_eq!(v.duplicate(), v);
}

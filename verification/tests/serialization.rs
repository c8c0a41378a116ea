use jet_host::value::{to_json_text, HostValue};

#[test]
fn scalars_serialize_exactly() {
    assert_eq!(to_json_text(&HostValue::Null), "null");
    assert_eq!(to_json_text(&HostValue::Bool(true)), "true");
    assert_eq!(to_json_text(&HostValue::Bool(false)), "false");
    assert_eq!(to_json_text(&HostValue::Int(0)), "0");
    assert_eq!(to_json_text(&HostValue::Int(7)), "7");
    assert_eq!(to_json_text(&HostValue::Int(-42)), "-42");
    assert_eq!(to_json_text(&HostValue::Int(1047)), "1047");
}

#[test]
fn extreme_numbers_serialize_exactly() {
    assert_eq!(to_json_text(&HostValue::Int(i64::MAX)), "9223372036854775807");
    assert_eq!(to_json_text(&HostValue::Int(i64::MIN)), "-9223372036854775808");
}

#[test]
fn strings_escape_their_special_characters() {
    let v = HostValue::Text("plain".to_string());
    assert_eq!(to_json_text(&v), "\"plain\"");
    let v = HostValue::Text("a\"b\\c\nd\re\tf".to_string());
    assert_eq!(to_json_text(&v), "\"a\\\"b\\\\c\\nd\\re\\tf\"");
    let v = HostValue::Text(String::new());
    assert_eq!(to_json_text(&v), "\"\"");
}

#[test]
fn sequences_and_mappings_nest() {
    let v = HostValue::Sequence(vec![
        HostValue::Int(1),
        HostValue::Null,
        HostValue::Text("x".to_string()),
    ]);
    assert_eq!(to_json_text(&v), "[1,null,\"x\"]");
    assert_eq!(to_json_text(&HostValue::Sequence(Vec::new())), "[]");
    assert_eq!(to_json_text(&HostValue::Mapping(Vec::new())), "{}");

    let inner = HostValue::Mapping(vec![("name".to_string(), HostValue::Text("Alice".to_string()))]);
    let outer = HostValue::Mapping(vec![
        ("current_user".to_string(), inner),
        ("ok".to_string(), HostValue::Bool(true)),
    ]);
    assert_eq!(
        to_json_text(&outer),
        "{\"current_user\":{\"name\":\"Alice\"},\"ok\":true}"
    );
}

#[test]
fn insertion_order_of_mappings_is_preserved() {
    let a = HostValue::Mapping(vec![
        ("b".to_string(), HostValue::Int(1)),
        ("a".to_string(), HostValue::Int(2)),
    ]);
    assert_eq!(to_json_text(&a), "{\"b\":1,\"a\":2}");
}

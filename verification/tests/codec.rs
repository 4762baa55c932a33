//! Tests of the decimal text helpers and the JSON codec.

use conduit_core::decode::parse_json;
use conduit_core::json::{JsonMember, JsonValue};
use conduit_core::text::{bool_to_text, i32_to_dec, i64_to_dec, parse_bool_str, parse_i32_str, u64_to_dec};

fn obj(members: Vec<(&str, JsonValue)>) -> JsonValue {
    JsonValue::Obj(
        members
            .into_iter()
            .map(|(k, v)| JsonMember { key: k.to_string(), value: v })
            .collect(),
    )
}

fn write(v: &JsonValue) -> String {
    conduit_core::json::write_json(v)
}

#[test]
fn decimal_formatting() {
    assert_eq!(u64_to_dec(0), "0");
    assert_eq!(u64_to_dec(90210), "90210");
    assert_eq!(i64_to_dec(-1), "-1");
    assert_eq!(i64_to_dec(i64::MIN), "-9223372036854775808");
    assert_eq!(i32_to_dec(i32::MIN), "-2147483648");
    assert_eq!(i32_to_dec(7), "7");
    assert_eq!(bool_to_text(true), "true");
    assert_eq!(bool_to_text(false), "false");
}

#[test]
fn decimal_parsing() {
    assert_eq!(parse_i32_str("0"), Some(0));
    assert_eq!(parse_i32_str("-1"), Some(-1));
    assert_eq!(parse_i32_str("2147483647"), Some(i32::MAX));
    assert_eq!(parse_i32_str("-2147483648"), Some(i32::MIN));
    assert_eq!(parse_i32_str("2147483648"), None);
    assert_eq!(parse_i32_str(""), None);
    assert_eq!(parse_i32_str("12a"), None);
    assert_eq!(parse_i32_str(" 1"), None);
    assert_eq!(parse_bool_str("true"), Some(true));
    assert_eq!(parse_bool_str("false"), Some(false));
    assert_eq!(parse_bool_str("True"), None);
}

#[test]
fn json_write_shapes() {
    assert_eq!(write(&JsonValue::Null), "null");
    assert_eq!(write(&JsonValue::Bool(true)), "true");
    assert_eq!(write(&JsonValue::Int(-42)), "-42");
    assert_eq!(write(&JsonValue::Text("hi".to_string())), "\"hi\"");
    assert_eq!(
        write(&JsonValue::Arr(vec![JsonValue::Int(1), JsonValue::Int(2)])),
        "[1,2]"
    );
    let v = obj(vec![
        ("a", JsonValue::Int(1)),
        ("b", JsonValue::Arr(vec![])),
    ]);
    assert_eq!(write(&v), "{\"a\":1,\"b\":[]}");
}

#[test]
fn json_write_escapes() {
    let v = JsonValue::Text("a\"b\\c\nd\u{0001}".to_string());
    assert_eq!(write(&v), "\"a\\\"b\\\\c\\nd\\u0001\"");
}

#[test]
fn json_parse_values() {
    assert!(matches!(parse_json("null"), Some(JsonValue::Null)));
    assert!(matches!(parse_json(" true "), Some(JsonValue::Bool(true))));
    assert!(matches!(parse_json("-7"), Some(JsonValue::Int(-7))));
    match parse_json("\"a b\"") {
        Some(JsonValue::Text(s)) => assert_eq!(s, "a b"),
        other => panic!("unexpected: {:?}", other),
    }
    match parse_json("[1, 2,3]") {
        Some(JsonValue::Arr(es)) => assert_eq!(es.len(), 3),
        other => panic!("unexpected: {:?}", other),
    }
    match parse_json("{ \"k\" : [true, null] }") {
        Some(JsonValue::Obj(ms)) => {
            assert_eq!(ms.len(), 1);
            assert_eq!(ms[0].key, "k");
        },
        other => panic!("unexpected: {:?}", other),
    }
}

#[test]
fn json_parse_rejects() {
    assert!(parse_json("").is_none());
    assert!(parse_json("tru").is_none());
    assert!(parse_json("1 2").is_none());
    assert!(parse_json("{\"a\":}").is_none());
    assert!(parse_json("[1,]").is_none());
    assert!(parse_json("\"unterminated").is_none());
    assert!(parse_json("01").is_none());
    // numbers are restricted to integers
    assert!(parse_json("1.5").is_none());
    assert!(parse_json("1e3").is_none());
}

#[test]
fn json_round_trip() {
    let v = obj(vec![
        ("name", JsonValue::Text("a\"b".to_string())),
        ("n", JsonValue::Int(-12)),
        ("flags", JsonValue::Arr(vec![JsonValue::Bool(false), JsonValue::Null])),
        ("inner", obj(vec![("x", JsonValue::Int(0))])),
    ]);
    let text = write(&v);
    let back = parse_json(&text).expect("round trip parses");
    assert_eq!(write(&back), text);
}

#[test]
fn json_matches_reference_decoder() {
    // cross-check the verified serializer against serde_json on a sample
    let v = obj(vec![
        ("title", JsonValue::Text("A t\"itle".to_string())),
        ("count", JsonValue::Int(3)),
        ("tags", JsonValue::Arr(vec![JsonValue::Text("x".to_string())])),
    ]);
    let ours = write(&v);
    let reference: serde_json::Value = serde_json::from_str(&ours).expect("valid JSON");
    assert_eq!(reference.get("title").and_then(|x| x.as_str()), Some("A t\"itle"));
    assert_eq!(reference.get("count").and_then(|x| x.as_i64()), Some(3));
    assert_eq!(reference.get("tags").and_then(|x| x.as_array()).map(|a| a.len()), Some(1));
}

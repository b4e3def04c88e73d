use data_api::codec::{bind_json, decode, encode, is_malformed};
use data_api::value::SqlValue;
use serde_json::{Number, Value};

fn samples() -> Vec<Value> {
    let mut inner = serde_json::Map::new();
    inner.insert("city".to_string(), Value::String("台北".to_string()));
    inner.insert("zip".to_string(), Value::Number(Number::from(106)));
    let mut object = serde_json::Map::new();
    object.insert("name".to_string(), Value::String("Lin \"the\" \\ first\n".to_string()));
    object.insert("address".to_string(), Value::Object(inner));
    object.insert("tags".to_string(), Value::Array(vec![Value::Bool(true), Value::Null, Value::Number(Number::from(-3))]));
    vec![
        Value::Null,
        Value::Bool(false),
        Value::Bool(true),
        Value::Number(Number::from(0)),
        Value::Number(Number::from(u64::MAX)),
        Value::Number(Number::from(i64::MIN)),
        Value::Number(Number::from_f64(1.5).unwrap()),
        Value::String(String::new()),
        Value::String("plain".to_string()),
        Value::Array(vec![]),
        Value::Object(serde_json::Map::new()),
        Value::Array(vec![Value::Array(vec![Value::Array(vec![])])]),
        Value::Object(object),
    ]
}

#[test]
fn decoding_what_was_encoded_gives_the_value_back() {
    for value in samples() {
        let stored = encode(&Some(value.clone()));
        assert!(stored.is_some());
        assert_eq!(decode(&stored), Some(value));
    }
}

#[test]
fn an_absent_value_is_stored_as_nothing_and_read_as_nothing() {
    assert_eq!(encode(&None), None);
    assert_eq!(decode(&None), None);
    assert_eq!(decode(&encode(&None)), None);
    assert_eq!(bind_json(&None), SqlValue::Null);
}

#[test]
fn encoding_writes_compact_text() {
    let value: Value = serde_json::from_str("{ \"b\" : [1, 2 , {\"c\": null}], \"a\": \"x\" }").unwrap();
    assert_eq!(encode(&Some(value.clone())), Some("{\"a\":\"x\",\"b\":[1,2,{\"c\":null}]}".to_string()));
    assert_eq!(bind_json(&Some(value)), SqlValue::Text("{\"a\":\"x\",\"b\":[1,2,{\"c\":null}]}".to_string()));
    assert_eq!(encode(&Some(Value::String("a".to_string()))), Some("\"a\"".to_string()));
    assert_eq!(encode(&Some(Value::Null)), Some("null".to_string()));
}

#[test]
fn decoding_reads_the_structure() {
    let value = decode(&Some("{\"n\": 3, \"list\": [true]}".to_string())).unwrap();
    assert_eq!(value.get("n").and_then(|n| n.as_i64()), Some(3));
    assert_eq!(value.get("list").and_then(|l| l.get(0)).and_then(|b| b.as_bool()), Some(true));
    assert_eq!(decode(&Some("  42 ".to_string())), Some(Value::Number(Number::from(42))));
    assert_eq!(decode(&Some("null".to_string())), Some(Value::Null));
}

#[test]
fn text_that_is_not_json_reads_as_absent() {
    for text in ["", "{", "{not json", "[1, 2", "plain words", "{\"a\": 1} trailing", "'single'", "nul"] {
        assert_eq!(decode(&Some(text.to_string())), None);
    }
}

#[test]
fn malformed_text_is_noticed() {
    assert!(is_malformed(&Some("{not json".to_string())));
    assert!(is_malformed(&Some(String::new())));
    assert!(!is_malformed(&Some("{\"a\": 1}".to_string())));
    assert!(!is_malformed(&Some("null".to_string())));
    assert!(!is_malformed(&None));
}

#[test]
fn a_value_nested_deeper_than_the_reader_accepts_is_read_as_absent() {
    let mut shallow = Value::Null;
    for _ in 0..100 {
        shallow = Value::Array(vec![shallow]);
    }
    assert_eq!(decode(&encode(&Some(shallow.clone()))), Some(shallow));
    let mut deep = Value::Null;
    for _ in 0..200 {
        deep = Value::Array(vec![deep]);
    }
    let stored = encode(&Some(deep));
    assert_eq!(stored.as_ref().map(|text| text.len()), Some(404));
    assert_eq!(decode(&stored), None);
    assert!(is_malformed(&stored));
}

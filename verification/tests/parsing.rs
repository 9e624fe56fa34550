use astra_flash::json::{get_i64, get_str, Json};
use astra_flash::parsing::{contains_bytes, SimdParser};
use astra_flash::types::FlashError;
use std::mem::size_of_val;

#[test]
fn test_simd_parser_new() {
    let parser = SimdParser::new();
    assert!(size_of_val(&parser) < 100);
}

#[test]
fn test_simd_parser_default() {
    let parser = SimdParser::default();
    assert!(size_of_val(&parser) < 100);
}

#[test]
fn test_detect_message_type_price() {
    let parser = SimdParser::new();
    let data = br#"{"type":"PRICE","instrument":"EUR_USD"}"#;
    assert_eq!(parser.detect_message_type(data), Some("PRICE"));
}

#[test]
fn test_detect_message_type_price_with_space() {
    let parser = SimdParser::new();
    let data = br#"{"type": "PRICE","instrument":"EUR_USD"}"#;
    assert_eq!(parser.detect_message_type(data), Some("PRICE"));
}

#[test]
fn test_detect_message_type_heartbeat() {
    let parser = SimdParser::new();
    let data = br#"{"type":"HEARTBEAT","time":"2023-01-01"}"#;
    assert_eq!(parser.detect_message_type(data), Some("HEARTBEAT"));
}

#[test]
fn test_detect_message_type_unknown() {
    let parser = SimdParser::new();
    let data = br#"{"type":"UNKNOWN","data":123}"#;
    assert_eq!(parser.detect_message_type(data), None);
}

#[test]
fn mod_test_is_heartbeat() {
    let parser = SimdParser::new();
    assert!(parser.is_heartbeat(br#"{"type":"HEARTBEAT"}"#));
    assert!(!parser.is_heartbeat(br#"{"type":"PRICE"}"#));
}

#[test]
fn test_is_price() {
    let parser = SimdParser::new();
    assert!(parser.is_price(br#"{"type":"PRICE"}"#));
    assert!(!parser.is_price(br#"{"type":"HEARTBEAT"}"#));
}

#[test]
fn test_contains_bytes_found() {
    let haystack = b"hello world";
    let needle = b"world";
    assert!(contains_bytes(haystack, needle));
}

#[test]
fn test_contains_bytes_not_found() {
    let haystack = b"hello world";
    let needle = b"universe";
    assert!(!contains_bytes(haystack, needle));
}

#[test]
fn detection_prefers_price_and_handles_edges() {
    let parser = SimdParser::new();
    // A message naming both types is taken as a price.
    let both = br#"{"type":"HEARTBEAT","inner":{"type":"PRICE"}}"#;
    assert_eq!(parser.detect_message_type(both), Some("PRICE"));
    assert_eq!(parser.detect_message_type(b""), None);
    assert!(!parser.is_price(b""));
    assert!(contains_bytes(b"abc", b"abc"));
    assert!(!contains_bytes(b"ab", b"abc"));
    assert!(contains_bytes(b"xxabc", b"abc"));
}

#[test]
fn test_parse_value_object() {
    let parser = SimdParser::new();
    let mut data = br#"{"key":"value","number":42}"#.to_vec();
    let value = parser.parse_value(&mut data).expect("Should parse");
    assert!(matches!(value, Json::Object(_)));
    assert_eq!(get_str(&value, "key"), "value");
    assert_eq!(get_i64(&value, "number"), 42);
}

#[test]
fn test_parse_value_array() {
    let parser = SimdParser::new();
    let mut data = br#"[1,2,3,"four"]"#.to_vec();
    let value = parser.parse_value(&mut data).expect("Should parse");
    match value {
        Json::Array(items) => {
            assert_eq!(items.len(), 4);
            assert!(matches!(&items[3], Json::Str(t) if t == "four"));
        }
        other => panic!("expected an array, got {other:?}"),
    }
}

#[test]
fn test_parse_value_nested() {
    let parser = SimdParser::new();
    let mut data = br#"{"outer":{"inner":{"deep":"value"}}}"#.to_vec();
    let value = parser.parse_value(&mut data).expect("Should parse");
    let inner = value.get("outer").and_then(|o| o.get("inner")).expect("nested objects");
    assert_eq!(get_str(inner, "deep"), "value");
}

#[test]
fn test_parse_value_empty() {
    let parser = SimdParser::new();
    let mut data: Vec<u8> = vec![];
    let result = parser.parse_value(&mut data);
    assert!(result.is_err());
    assert_eq!(result.unwrap_err(), FlashError::ParseError("empty input".to_string()));
}

#[test]
fn test_parse_value_invalid() {
    let parser = SimdParser::new();
    let mut data = br#"not valid json"#.to_vec();
    let result = parser.parse_value(&mut data);
    assert!(result.is_err());
    assert!(matches!(result, Err(FlashError::ParseError(ref m)) if m != "empty input"));
}

#[test]
fn parse_value_keeps_number_text_and_sorts_keys() {
    let parser = SimdParser::new();
    let mut data = br#"{"b":1.5,"a":[true,null,-7]}"#.to_vec();
    let value = parser.parse_value(&mut data).expect("Should parse");
    match value {
        Json::Object(members) => {
            assert_eq!(members.len(), 2);
            assert_eq!(members[0].0, "a");
            assert!(matches!(&members[1].1, Json::Number(t) if t == "1.5"));
            match &members[0].1 {
                Json::Array(items) => {
                    assert!(matches!(items[0], Json::Bool(true)));
                    assert!(matches!(items[1], Json::Null));
                    assert!(matches!(&items[2], Json::Number(t) if t == "-7"));
                }
                other => panic!("expected an array, got {other:?}"),
            }
        }
        other => panic!("expected an object, got {other:?}"),
    }
}

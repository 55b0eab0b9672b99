use tds_bridge::decode::{decode_payload, member_text, DecodeError};

fn decode(s: &str) -> Result<String, DecodeError> {
    decode_payload(s.as_bytes().to_vec())
}

#[test]
fn valid_message_yields_value_text() {
    assert_eq!(decode(r#"{"tds_value": "12.5"}"#), Ok("12.5".to_string()));
}

#[test]
fn extra_members_are_ignored() {
    assert_eq!(decode(r#"{"sensor": 4, "tds_value": "310"}"#), Ok("310".to_string()));
}

#[test]
fn not_json_is_malformed() {
    assert_eq!(decode("not json"), Err(DecodeError::MalformedStructure));
}

#[test]
fn non_object_is_malformed() {
    assert_eq!(decode(r#"["12.5"]"#), Err(DecodeError::MalformedStructure));
}

#[test]
fn non_string_value_is_malformed() {
    assert_eq!(decode(r#"{"tds_value": 12.5}"#), Err(DecodeError::MalformedStructure));
}

#[test]
fn missing_member_is_reported() {
    assert_eq!(decode(r#"{"other": "12.5"}"#), Err(DecodeError::MissingField));
}

#[test]
fn invalid_utf8_is_reported() {
    assert_eq!(decode_payload(vec![0x7b, 0xff, 0xfe, 0x7d]), Err(DecodeError::InvalidEncoding));
}

#[test]
fn non_numeric_text_still_decodes() {
    assert_eq!(decode(r#"{"tds_value": "abc"}"#), Ok("abc".to_string()));
}

#[test]
fn member_text_on_given_objects() {
    let mut m = serde_json::Map::new();
    m.insert("tds_value".to_string(), serde_json::Value::String("7.25".to_string()));
    assert_eq!(member_text(Some(m)), Ok("7.25".to_string()));

    let mut m = serde_json::Map::new();
    m.insert("tds_value".to_string(), serde_json::Value::Bool(true));
    assert_eq!(member_text(Some(m)), Err(DecodeError::MalformedStructure));

    let mut m = serde_json::Map::new();
    m.insert("value".to_string(), serde_json::Value::String("1".to_string()));
    assert_eq!(member_text(Some(m)), Err(DecodeError::MissingField));

    assert_eq!(member_text(None), Err(DecodeError::MalformedStructure));
}

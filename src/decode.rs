use vstd::prelude::*;
use vstd::utf8::{decode_utf8, valid_utf8};

verus! {

/// Why a payload yields no reading.
#[derive(Clone, Copy, Debug, PartialEq, Eq, Structural)]
pub enum DecodeError {
    /// The payload is not valid UTF-8.
    InvalidEncoding,
    /// The text is not a JSON object, or its value member is not a string.
    MalformedStructure,
    /// The object has no value member.
    MissingField,
    /// The value text is not a number.
    InvalidNumber,
}

#[verifier::external_type_specification]
#[verifier::external_body]
pub struct ExJsonValue(serde_json::Value);

#[verifier::external_type_specification]
#[verifier::external_body]
#[verifier::reject_recursive_types(K)]
#[verifier::reject_recursive_types(V)]
pub struct ExJsonMap<K, V>(serde_json::Map<K, V>);

/// The members of `text` where serde_json reads it as a JSON object: each key
/// with the member's text where the member is a JSON string.
pub uninterp spec fn json_object(text: Seq<char>) -> Option<Map<Seq<char>, Option<Seq<char>>>>;

/// The members of a JSON object: each key with the member's text where the
/// member is a JSON string.
pub uninterp spec fn object_members(m: serde_json::Map<String, serde_json::Value>) -> Map<
    Seq<char>,
    Option<Seq<char>>,
>;

/// Relies on String::from_utf8: `Ok` exactly where the bytes are valid UTF-8,
/// holding the text they encode.
#[verifier::external_body]
fn utf8_of(bytes: Vec<u8>) -> (r: Option<String>)
    ensures
        match r {
            Some(s) => valid_utf8(bytes@) && s@ == decode_utf8(bytes@),
            None => !valid_utf8(bytes@),
        },
{
    String::from_utf8(bytes).ok()
}

/// Relies on serde_json::from_str: `Ok` exactly where the text is a JSON
/// object, with its members.
#[verifier::external_body]
fn parse_object(text: &str) -> (r: Option<serde_json::Map<String, serde_json::Value>>)
    ensures
        match r {
            Some(m) => json_object(text@) == Some(object_members(m)),
            None => json_object(text@) is None,
        },
{
    serde_json::from_str::<serde_json::Map<String, serde_json::Value>>(text).ok()
}

/// Relies on serde_json::Map::get, and on Value::as_str to take the text out
/// of a string member: `None` where no member has the key.
#[verifier::external_body]
fn member_of(m: &serde_json::Map<String, serde_json::Value>, key: &str) -> (r: Option<Option<String>>)
    ensures
        r is None <==> !object_members(*m).contains_key(key@),
        r matches Some(t) ==> object_members(*m)[key@] == match t {
            Some(s) => Some(s@),
            None => None::<Seq<char>>,
        },
{
    m.get(key).map(|v| v.as_str().map(String::from))
}

/// The key of the member that carries the reading.
pub open spec fn value_key() -> Seq<char> {
    "tds_value"@
}

/// The value text of a message whose members are `members` (`None` where
/// the text was no JSON object).
pub open spec fn member_text_spec(members: Option<Map<Seq<char>, Option<Seq<char>>>>) -> Result<
    Seq<char>,
    DecodeError,
> {
    match members {
        None => Err(DecodeError::MalformedStructure),
        Some(m) => if !m.contains_key(value_key()) {
            Err(DecodeError::MissingField)
        } else {
            match m[value_key()] {
                Some(t) => Ok(t),
                None => Err(DecodeError::MalformedStructure),
            }
        },
    }
}

/// The value text that a raw payload carries, or why it carries none.
pub open spec fn decode_spec(payload: Seq<u8>) -> Result<Seq<char>, DecodeError> {
    if valid_utf8(payload) {
        member_text_spec(json_object(decode_utf8(payload)))
    } else {
        Err(DecodeError::InvalidEncoding)
    }
}

/// The view of a decoding result.
pub open spec fn result_view(r: Result<String, DecodeError>) -> Result<Seq<char>, DecodeError> {
    match r {
        Ok(s) => Ok(s@),
        Err(e) => Err(e),
    }
}

/// The members of an optional JSON object.
pub open spec fn members_view(
    obj: Option<serde_json::Map<String, serde_json::Value>>,
) -> Option<Map<Seq<char>, Option<Seq<char>>>> {
    match obj {
        Some(m) => Some(object_members(m)),
        None => None,
    }
}

/// Takes the value text out of a parsed message (`None` where the text was
/// no JSON object).
pub fn member_text(obj: Option<serde_json::Map<String, serde_json::Value>>) -> (r: Result<
    String,
    DecodeError,
>)
    ensures
        result_view(r) == member_text_spec(members_view(obj)),
{
    match obj {
        None => Err(DecodeError::MalformedStructure),
        Some(m) => match member_of(&m, "tds_value") {
            None => Err(DecodeError::MissingField),
            Some(None) => Err(DecodeError::MalformedStructure),
            Some(Some(t)) => Ok(t),
        },
    }
}

/// Decodes a raw payload `{"tds_value": "<number>"}` into its value text.
pub fn decode_payload(payload: Vec<u8>) -> (r: Result<String, DecodeError>)
    ensures
        result_view(r) == decode_spec(payload@),
{
    match utf8_of(payload) {
        None => Err(DecodeError::InvalidEncoding),
        Some(text) => member_text(parse_object(text.as_str())),
    }
}

} // verus!

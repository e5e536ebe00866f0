//! Extracting the assistant's text from the provider's parsed response:
//! the content of the first choice's message, or the whole payload as a
//! structured error when the shape is not there.
//!
//! The response value is opaque, so what the lookups find in it is given
//! names: `field_of`, `element_of` and `string_of` stand for what
//! serde_json's deterministic lookups return, and the extraction
//! contract is exact over them.

use vstd::prelude::*;

verus! {

/// The provider's response payload, held opaquely.
#[verifier::external_type_specification]
#[verifier::external_body]
pub struct ExValue(serde_json::Value);

/// What serde_json::Value::get finds under a string key: the member of
/// an object, else nothing. A function of the value and the key alone.
pub uninterp spec fn field_of(v: serde_json::Value, key: Seq<char>) -> Option<serde_json::Value>;

/// What serde_json::Value::get finds at a numeric index: the element of
/// an array, else nothing. A function of the value and the index alone.
pub uninterp spec fn element_of(v: serde_json::Value, i: int) -> Option<serde_json::Value>;

/// What serde_json::Value::as_str hands out: the text of a JSON string,
/// else nothing. A function of the value alone.
pub uninterp spec fn string_of(v: serde_json::Value) -> Option<Seq<char>>;

/// Relies on serde_json::Value::get with a string index: it looks the
/// key up when the value is an object, and returns None otherwise.
#[verifier::external_body]
fn get_field<'a>(v: &'a serde_json::Value, key: &str) -> (r: Option<&'a serde_json::Value>)
    ensures
        r matches Some(f) ==> field_of(*v, key@) == Some(*f),
        r is None ==> field_of(*v, key@) is None,
{
    v.get(key)
}

/// Relies on serde_json::Value::get with a usize index: it picks the
/// element when the value is an array, and returns None otherwise.
#[verifier::external_body]
fn get_element(v: &serde_json::Value, i: usize) -> (r: Option<&serde_json::Value>)
    ensures
        r matches Some(e) ==> element_of(*v, i as int) == Some(*e),
        r is None ==> element_of(*v, i as int) is None,
{
    v.get(i)
}

/// Relies on serde_json::Value::as_str: it hands the text back exactly
/// when the value is a JSON string, and returns None otherwise.
#[verifier::external_body]
fn value_as_string(v: &serde_json::Value) -> (r: Option<String>)
    ensures
        r matches Some(s) ==> string_of(*v) == Some(s@),
        r is None ==> string_of(*v) is None,
{
    match v.as_str() {
        Some(s) => Some(s.to_owned()),
        None => None,
    }
}

/// The text at `choices[0].message.content`, when every link of that
/// chain is there and the content is a string.
pub open spec fn content_of(resp: serde_json::Value) -> Option<Seq<char>> {
    match field_of(resp, "choices"@) {
        Some(choices) => match element_of(choices, 0) {
            Some(first) => match field_of(first, "message"@) {
                Some(message) => match field_of(message, "content"@) {
                    Some(content) => string_of(content),
                    None => None,
                },
                None => None,
            },
            None => None,
        },
        None => None,
    }
}

/// The assistant's text in `resp`, at `choices[0].message.content`; when
/// any link of that chain is missing, the response itself, untouched, as
/// the error payload to show.
pub fn extract_content(resp: serde_json::Value) -> (r: Result<String, serde_json::Value>)
    ensures
        r matches Ok(s) ==> content_of(resp) == Some(s@),
        r matches Err(payload) ==> payload == resp && content_of(resp) is None,
{
    let content = match get_field(&resp, "choices") {
        Some(choices) => match get_element(choices, 0) {
            Some(first) => match get_field(first, "message") {
                Some(message) => match get_field(message, "content") {
                    Some(content) => value_as_string(content),
                    None => None,
                },
                None => None,
            },
            None => None,
        },
        None => None,
    };
    match content {
        Some(text) => Ok(text),
        None => Err(resp),
    }
}

} // verus!

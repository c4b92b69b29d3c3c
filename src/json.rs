//! The JSON reader that notifications go through, and the model of a JSON
//! value that its contracts speak of.
use vstd::prelude::*;

verus! {

#[verifier::external_type_specification]
#[verifier::external_body]
pub struct ExValue(serde_json::Value);

#[verifier::external_type_specification]
#[verifier::external_body]
pub struct ExError(serde_json::Error);

/// A JSON value as this library reads it.
pub enum Json {
    Null,
    Bool(bool),
    /// A number, held as the bit pattern of the double it reads as.
    Number(u64),
    Str(Seq<char>),
    Array(Seq<Json>),
    /// An object: each key once, with its value.
    Object(Map<Seq<char>, Json>),
}

/// What a text parses to: nothing when it is not one JSON document.
pub uninterp spec fn parsed(text: Seq<char>) -> Option<Json>;

/// What a `serde_json::Value` holds.
pub uninterp spec fn json_view(v: serde_json::Value) -> Json;

/// The member of an object under a key; nothing for a missing key or a value
/// that is not an object.
pub open spec fn member_of(j: Json, key: Seq<char>) -> Option<Json> {
    match j {
        Json::Object(m) => if m.contains_key(key) {
            Some(m[key])
        } else {
            None
        },
        _ => None,
    }
}

/// Relies on `serde_json::from_str::<Value>`: it succeeds exactly when the
/// whole text is one JSON document, and then holds that document.
#[verifier::external_body]
pub(crate) fn parse_value(text: &str) -> (r: Result<serde_json::Value, serde_json::Error>)
    ensures
        r is Ok <==> parsed(text@) is Some,
        r matches Ok(v) ==> json_view(v) == parsed(text@).unwrap(),
{
    serde_json::from_str::<serde_json::Value>(text)
}

/// Relies on `serde_json::Value::get` with a string key: an object's member
/// under that key, or nothing for a missing key or a non-object.
#[verifier::external_body]
pub(crate) fn member<'a>(v: &'a serde_json::Value, key: &str) -> (r: Option<&'a serde_json::Value>)
    ensures
        r is Some <==> member_of(json_view(*v), key@) is Some,
        r matches Some(m) ==> json_view(*m) == member_of(json_view(*v), key@).unwrap(),
{
    v.get(key)
}

/// Relies on `serde_json::Value::is_null`.
#[verifier::external_body]
pub(crate) fn is_null(v: &serde_json::Value) -> (r: bool)
    ensures
        r == (json_view(*v) is Null),
{
    v.is_null()
}

/// Relies on `serde_json::Value::is_object`.
#[verifier::external_body]
pub(crate) fn is_object(v: &serde_json::Value) -> (r: bool)
    ensures
        r == (json_view(*v) is Object),
{
    v.is_object()
}

/// Relies on `serde_json::Value::as_f64`: a number's value as a double,
/// handed on as its bit pattern; nothing for a value that is not a number.
#[verifier::external_body]
pub(crate) fn number_bits(v: &serde_json::Value) -> (r: Option<u64>)
    ensures
        r == (match json_view(*v) {
            Json::Number(bits) => Some(bits),
            _ => None,
        }),
{
    match v.as_f64() {
        Some(x) => Some(x.to_bits()),
        None => None,
    }
}

} // verus!

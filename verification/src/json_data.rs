//! A mathematical model of parsed JSON documents, and the trusted boundary to
//! the `serde_json` parser.
//!
//! A `serde_json::Value` is opaque to the verifier, so `json_of` names the
//! tree a value represents, and each accessor the loader calls is wrapped in a
//! function whose contract states, over that model, what `serde_json`'s source
//! shows the accessor returns. Numeric payloads are abstracted away: this tool
//! never reads a number out of a document.

use vstd::prelude::*;

verus! {

/// The tree shape of a parsed JSON document.
pub enum JsonModel {
    Null,
    Bool { b: bool },
    Number,
    Text { s: Seq<char> },
    List { items: Seq<JsonModel> },
    Object { entries: Map<Seq<char>, JsonModel> },
}

/// The tree that a `serde_json::Value` represents: a fixed function of the
/// value, applied by the contracts of the accessor wrappers below.
pub uninterp spec fn json_of(v: serde_json::Value) -> JsonModel;

/// The result of parsing a text as JSON: `Some` model exactly when
/// `serde_json::from_str::<Value>` accepts the text, a fixed function of the
/// text alone.
pub uninterp spec fn json_text(s: Seq<char>) -> Option<JsonModel>;

#[verifier::external_type_specification]
#[verifier::external_body]
pub struct ExValue(serde_json::Value);

#[verifier::external_type_specification]
#[verifier::external_body]
pub struct ExError(serde_json::Error);

/// Relies on `serde_json::from_str::<Value>`: deterministically parses the
/// text into a value, or rejects it.
#[verifier::external_body]
pub(crate) fn parse_document(s: &str) -> (r: Result<serde_json::Value, serde_json::Error>)
    ensures
        r is Ok <==> json_text(s@) is Some,
        (r matches Ok(v) ==> json_of(v) == json_text(s@)->0),
{
    serde_json::from_str(s)
}

/// Relies on `serde_json::Value::is_object`: true exactly on `Value::Object`.
#[verifier::external_body]
pub(crate) fn value_is_object(v: &serde_json::Value) -> (r: bool)
    ensures
        r == (json_of(*v) is Object),
{
    v.is_object()
}

/// Relies on `serde_json::Value::get` with a string index: on an object,
/// looks the key up in the map; on anything else, returns `None`.
#[verifier::external_body]
pub(crate) fn value_get<'a>(v: &'a serde_json::Value, key: &str) -> (r: Option<
    &'a serde_json::Value,
>)
    ensures
        json_of(*v) is Object ==> {
            &&& r is Some <==> json_of(*v)->entries.contains_key(key@)
            &&& (r matches Some(m) ==> json_of(*m) == json_of(*v)->entries[key@])
        },
        !(json_of(*v) is Object) ==> r is None,
{
    v.get(key)
}

/// Relies on `serde_json::Value::as_array`: returns the element vector
/// exactly on `Value::Array`.
#[verifier::external_body]
pub(crate) fn value_as_array<'a>(v: &'a serde_json::Value) -> (r: Option<
    &'a Vec<serde_json::Value>,
>)
    ensures
        r is Some <==> json_of(*v) is List,
        (r matches Some(a) ==> {
            &&& a@.len() == json_of(*v)->items.len()
            &&& forall|i: int|
                0 <= i < a@.len() ==> json_of(#[trigger] a@[i]) == json_of(*v)->items[i]
        }),
{
    v.as_array()
}

/// Relies on `serde_json::Value::as_str`: returns the string slice exactly on
/// `Value::String`.
#[verifier::external_body]
pub(crate) fn value_as_str<'a>(v: &'a serde_json::Value) -> (r: Option<&'a str>)
    ensures
        r is Some <==> json_of(*v) is Text,
        (r matches Some(s) ==> s@ == json_of(*v)->s),
{
    v.as_str()
}

} // verus!

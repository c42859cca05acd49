//! Trusted boundary to `serde_json`. A parsed JSON tree is opaque to
//! the verifier, so the tree a body parses to is given a name,
//! `json_value_of`, and each node a mathematical image, `json_node`;
//! every accessor the protocol logic calls is declared with exactly
//! what its source does on that image. The protocol logic reading the
//! tree is then verified against these contracts.

use vstd::prelude::*;

verus! {

#[verifier::external_type_specification]
#[verifier::external_body]
pub struct ExJsonValue(serde_json::Value);

#[verifier::external_type_specification]
#[verifier::external_body]
pub struct ExJsonError(serde_json::Error);

/// Mathematical image of one JSON node: its value for the scalar
/// shapes, its entries for an object, and a bare marker for an array
/// (the protocol never reads one). A number carries what the two
/// integer accessors return for it.
pub enum JsonNodeView {
    Null,
    Bool(bool),
    Number { as_u64: Option<u64>, as_i64: Option<i64> },
    Str(Seq<char>),
    Array,
    Object(Map<Seq<char>, JsonNodeView>),
}

/// The image of the node a JSON value carries.
pub uninterp spec fn json_node(v: serde_json::Value) -> JsonNodeView;

/// What parsing a JSON text gives: the image of its root node, or
/// nothing when the text is malformed. Parsing is a function of the
/// text alone.
pub uninterp spec fn json_value_of(s: Seq<char>) -> Option<JsonNodeView>;

/// Relies on `serde_json::from_str::<Value>`: deterministic in the
/// text; parses JSON text into a value tree, or fails exactly on
/// malformed input.
#[verifier::external_body]
pub(crate) fn json_parse(s: &str) -> (r: Result<serde_json::Value, serde_json::Error>)
    ensures
        match json_value_of(s@) {
            Some(n) => r matches Ok(v) && json_node(v) == n,
            None => r is Err,
        },
{
    serde_json::from_str::<serde_json::Value>(s)
}

/// Relies on `serde_json::Value::get`: on an object, the value of the
/// key; `None` for a missing key or any non-object.
#[verifier::external_body]
pub(crate) fn json_get<'a>(v: &'a serde_json::Value, key: &str) -> (r: Option<
    &'a serde_json::Value,
>)
    ensures
        match json_node(*v) {
            JsonNodeView::Object(m) => {
                &&& m.contains_key(key@) ==> (r matches Some(f) && json_node(*f) == m[key@])
                &&& !m.contains_key(key@) ==> r is None
            },
            _ => r is None,
        },
{
    v.get(key)
}

/// Relies on `serde_json::Value::as_bool`: `Some` exactly for a JSON
/// boolean.
#[verifier::external_body]
pub(crate) fn json_as_bool(v: &serde_json::Value) -> (r: Option<bool>)
    ensures
        r == match json_node(*v) {
            JsonNodeView::Bool(b) => Some(b),
            _ => None::<bool>,
        },
{
    v.as_bool()
}

/// Relies on `serde_json::Value::as_str`: `Some` exactly for a JSON
/// string.
#[verifier::external_body]
pub(crate) fn json_as_str<'a>(v: &'a serde_json::Value) -> (r: Option<&'a str>)
    ensures
        match json_node(*v) {
            JsonNodeView::Str(s) => r matches Some(x) && x@ == s,
            _ => r is None,
        },
{
    v.as_str()
}

/// Relies on `serde_json::Value::as_u64`: `Some` exactly for a JSON
/// number representable as a `u64`.
#[verifier::external_body]
pub(crate) fn json_as_u64(v: &serde_json::Value) -> (r: Option<u64>)
    ensures
        r == match json_node(*v) {
            JsonNodeView::Number { as_u64, .. } => as_u64,
            _ => None::<u64>,
        },
{
    v.as_u64()
}

/// Relies on `serde_json::Value::as_i64`: `Some` exactly for a JSON
/// number representable as an `i64`.
#[verifier::external_body]
pub(crate) fn json_as_i64(v: &serde_json::Value) -> (r: Option<i64>)
    ensures
        r == match json_node(*v) {
            JsonNodeView::Number { as_i64, .. } => as_i64,
            _ => None::<i64>,
        },
{
    v.as_i64()
}

/// Relies on `serde_json::Value::is_null`: true exactly for JSON
/// `null`.
#[verifier::external_body]
pub(crate) fn json_is_null(v: &serde_json::Value) -> (r: bool)
    ensures
        r == (json_node(*v) is Null),
{
    v.is_null()
}

} // verus!

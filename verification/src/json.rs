//! The JSON codec boundary.
//!
//! Parsing and serializing JSON is delegated to serde_json. What a body text
//! holds is given names here — what its object members are, what its array
//! elements are — and every wrapper's contract speaks over those names, so
//! that the verified response handling can state exactly which member of the
//! body each record attribute came from.

use vstd::prelude::*;

verus! {

/// Whether the text is well-formed JSON whose top level is an object.
pub uninterp spec fn doc_is_obj(body: Seq<char>) -> bool;

/// The `key` member of the object the text parses to, when the text is
/// well-formed and that member is present and a string.
pub uninterp spec fn doc_str(body: Seq<char>, key: Seq<char>) -> Option<Seq<char>>;

/// The `key` member of the object the text parses to, when present and a
/// boolean.
pub uninterp spec fn doc_bool(body: Seq<char>, key: Seq<char>) -> Option<bool>;

/// The `key` member of the object the text parses to, when present and a
/// number representable as an `i64`.
pub uninterp spec fn doc_i64(body: Seq<char>, key: Seq<char>) -> Option<i64>;

/// The `key` member of the object the text parses to, when present and a
/// number, rendered back as decimal text.
pub uninterp spec fn doc_num(body: Seq<char>, key: Seq<char>) -> Option<Seq<char>>;

/// The length of the array the text parses to, when the text is well-formed
/// JSON whose top level is an array.
pub uninterp spec fn doc_arr_len(body: Seq<char>) -> Option<int>;

/// The `i`th element of the array the text parses to, rendered back as JSON
/// text.
pub uninterp spec fn doc_elem(body: Seq<char>, i: int) -> Option<Seq<char>>;

/// The JSON array serialization of a sequence of strings.
pub uninterp spec fn json_string_array(items: Seq<Seq<char>>) -> Seq<char>;

/// The view of an optional owned string.
pub open spec fn opt_str_view(o: Option<String>) -> Option<Seq<char>> {
    match o {
        Some(s) => Some(s@),
        None => None,
    }
}

/// Relies on `serde_json::from_str::<Value>` and `Value::is_object`: whether
/// the text parses and its top level is a JSON object. Deterministic in the
/// text alone.
#[verifier::external_body]
pub(crate) fn json_is_object(body: &str) -> (r: bool)
    ensures
        r == doc_is_obj(body@),
{
    serde_json::from_str::<serde_json::Value>(body).map_or(false, |v| v.is_object())
}

/// Relies on `serde_json::from_str::<Value>`, `Value::get` and
/// `Value::as_str`: the named member of the parsed object when it is a
/// string, `None` on any failure along the way. Deterministic in the text
/// and key alone.
#[verifier::external_body]
pub(crate) fn json_str_member(body: &str, key: &str) -> (r: Option<String>)
    ensures
        opt_str_view(r) == doc_str(body@, key@),
{
    match serde_json::from_str::<serde_json::Value>(body) {
        Ok(v) => v.get(key).and_then(|m| m.as_str()).map(String::from),
        Err(_) => None,
    }
}

/// Relies on `serde_json::from_str::<Value>`, `Value::get` and
/// `Value::as_bool`: the named member of the parsed object when it is a
/// boolean. Deterministic in the text and key alone.
#[verifier::external_body]
pub(crate) fn json_bool_member(body: &str, key: &str) -> (r: Option<bool>)
    ensures
        r == doc_bool(body@, key@),
{
    match serde_json::from_str::<serde_json::Value>(body) {
        Ok(v) => v.get(key).and_then(|m| m.as_bool()),
        Err(_) => None,
    }
}

/// Relies on `serde_json::from_str::<Value>`, `Value::get` and
/// `Value::as_i64`: the named member of the parsed object when it is an
/// integer that fits an `i64`. Deterministic in the text and key alone.
#[verifier::external_body]
pub(crate) fn json_i64_member(body: &str, key: &str) -> (r: Option<i64>)
    ensures
        r == doc_i64(body@, key@),
{
    match serde_json::from_str::<serde_json::Value>(body) {
        Ok(v) => v.get(key).and_then(|m| m.as_i64()),
        Err(_) => None,
    }
}

/// Relies on `serde_json::from_str::<Value>`, `Value::get`,
/// `Value::as_number` and the number's `Display`: the named member of the
/// parsed object when it is a number, as its decimal text. Deterministic in
/// the text and key alone.
#[verifier::external_body]
pub(crate) fn json_num_member(body: &str, key: &str) -> (r: Option<String>)
    ensures
        opt_str_view(r) == doc_num(body@, key@),
{
    match serde_json::from_str::<serde_json::Value>(body) {
        Ok(v) => v.get(key).and_then(|m| m.as_number()).map(|n| n.to_string()),
        Err(_) => None,
    }
}

/// Relies on `serde_json::from_str::<Value>` and `Value::as_array`: the
/// element count of the parsed array, `None` when the text does not parse to
/// an array. Each position below the length holds an element, so `doc_elem`
/// is `Some` there. Deterministic in the text alone.
#[verifier::external_body]
pub(crate) fn json_array_len(body: &str) -> (r: Option<usize>)
    ensures
        (r matches Some(n) ==> doc_arr_len(body@) == Some(n as int) && (forall|i: int|
            0 <= i < n ==> doc_elem(body@, i) is Some)),
        r is None ==> doc_arr_len(body@) is None,
{
    match serde_json::from_str::<serde_json::Value>(body) {
        Ok(v) => v.as_array().map(|a| a.len()),
        Err(_) => None,
    }
}

/// Relies on `serde_json::from_str::<Value>`, `Value::get` and the value's
/// `Display`: the `i`th element of the parsed array, re-rendered as JSON
/// text. Deterministic in the text and index alone.
#[verifier::external_body]
pub(crate) fn json_elem(body: &str, i: usize) -> (r: Option<String>)
    ensures
        opt_str_view(r) == doc_elem(body@, i as int),
{
    match serde_json::from_str::<serde_json::Value>(body) {
        Ok(v) => v.get(i).map(|m| m.to_string()),
        Err(_) => None,
    }
}

/// Relies on `serde_json::to_string`: the JSON array serialization of the
/// given strings. Serializing a vector of strings cannot fail — there are no
/// fallible leaf values and no non-string keys in it — so the error arm is
/// unreachable.
#[verifier::external_body]
pub(crate) fn encode_string_array(items: &Vec<String>) -> (r: String)
    ensures
        r@ == json_string_array(items.deep_view()),
{
    match serde_json::to_string(items) {
        Ok(s) => s,
        Err(_) => String::new(),
    }
}

} // verus!

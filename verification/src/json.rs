//! Calls into `serde_json` that read or rewrite a JSON text, each named by what it returns.

use vstd::prelude::*;

verus! {

/// What `json_member_str` returns for `text` and `key`.
pub uninterp spec fn json_member_str_of(text: Seq<char>, key: Seq<char>) -> Option<Seq<char>>;

/// What `json_member_i64` returns for `text` and `key`.
pub uninterp spec fn json_member_i64_of(text: Seq<char>, key: Seq<char>) -> Option<i64>;

/// What `json_has_member` returns for `text` and `key`.
pub uninterp spec fn json_has_member_of(text: Seq<char>, key: Seq<char>) -> bool;

/// What `json_compact` returns for `text`.
pub uninterp spec fn json_compact_of(text: Seq<char>) -> Seq<char>;

/// What `json_is_object` returns for `text`.
pub uninterp spec fn json_is_object_of(text: Seq<char>) -> bool;

/// What `json_string_items` returns for `text` and `key`.
pub uninterp spec fn json_string_items_of(text: Seq<char>, key: Seq<char>) -> Option<
    Seq<Option<Seq<char>>>,
>;

/// What `json_with_string_array` returns for `text`, `key` and `values`.
pub uninterp spec fn json_with_string_array_of(
    text: Seq<char>,
    key: Seq<char>,
    values: Seq<Seq<char>>,
) -> Seq<char>;

/// What `json_pretty_string_object` returns for `entries`.
pub uninterp spec fn json_pretty_string_object_of(entries: Seq<(Seq<char>, Seq<char>)>) -> Seq<char>;

/// What `json_pretty` returns for `text`.
pub uninterp spec fn json_pretty_of(text: Seq<char>) -> Seq<char>;

/// `serde_json::from_str::<Value>`, then `Value::get(key)` and `Value::as_str`: the member
/// `key` of the JSON object `text` when it is a string; `None` when `text` is not JSON, not an
/// object, lacks the member or holds another kind of value there.
#[verifier::external_body]
pub(crate) fn json_member_str(text: &str, key: &str) -> (r: Option<String>)
    ensures
        match r {
            Some(t) => json_member_str_of(text@, key@) == Some(t@),
            None => json_member_str_of(text@, key@) is None,
        },
{
    match serde_json::from_str::<serde_json::Value>(text) {
        Ok(v) => v.get(key).and_then(serde_json::Value::as_str).map(str::to_string),
        Err(_) => None,
    }
}

/// `serde_json::from_str::<Value>`, then `Value::get(key)` and `Value::as_i64`: the member
/// `key` of the JSON object `text` when it is an integer that fits in `i64`.
#[verifier::external_body]
pub(crate) fn json_member_i64(text: &str, key: &str) -> (r: Option<i64>)
    ensures
        r == json_member_i64_of(text@, key@),
{
    match serde_json::from_str::<serde_json::Value>(text) {
        Ok(v) => v.get(key).and_then(serde_json::Value::as_i64),
        Err(_) => None,
    }
}

/// `serde_json::from_str::<Value>`, then `Value::get(key).is_some()`: whether the JSON object
/// `text` has the member `key` (whatever it holds, `null` included).
#[verifier::external_body]
pub(crate) fn json_has_member(text: &str, key: &str) -> (r: bool)
    ensures
        r == json_has_member_of(text@, key@),
{
    match serde_json::from_str::<serde_json::Value>(text) {
        Ok(v) => v.get(key).is_some(),
        Err(_) => false,
    }
}

/// `serde_json::from_str::<Value>` then `serde_json::to_string`: the compact serialisation of
/// the JSON value `text` (empty when `text` is not JSON).
#[verifier::external_body]
pub(crate) fn json_compact(text: &str) -> (r: String)
    ensures
        r@ == json_compact_of(text@),
{
    match serde_json::from_str::<serde_json::Value>(text) {
        Ok(v) => serde_json::to_string(&v).unwrap_or_default(),
        Err(_) => String::new(),
    }
}

/// `serde_json::from_str::<Value>` then `Value::is_object`: whether `text` is a JSON object.
#[verifier::external_body]
pub(crate) fn json_is_object(text: &str) -> (r: bool)
    ensures
        r == json_is_object_of(text@),
{
    match serde_json::from_str::<serde_json::Value>(text) {
        Ok(v) => v.is_object(),
        Err(_) => false,
    }
}

/// `serde_json::from_str::<Value>`, then `Value::get(key)`, `Value::as_array` and
/// `Value::as_str` on each item: the items of the array member `key` of the JSON object `text`,
/// each one the string it holds or `None`; `None` when there is no such array.
#[verifier::external_body]
pub(crate) fn json_string_items(text: &str, key: &str) -> (r: Option<Vec<Option<String>>>)
    ensures
        match r {
            Some(items) => json_string_items_of(text@, key@) == Some(crate::history::opt_views(items@)),
            None => json_string_items_of(text@, key@) is None,
        },
{
    match serde_json::from_str::<serde_json::Value>(text) {
        Ok(v) => v.get(key).and_then(serde_json::Value::as_array).map(
            |items| items.iter().map(|item| item.as_str().map(str::to_string)).collect(),
        ),
        Err(_) => None,
    }
}

/// `serde_json::from_str::<Value>`, `Map::insert` of the array of `values` under `key`, then
/// `serde_json::to_string`: the JSON object `text` with its member `key` set to those strings.
#[verifier::external_body]
pub(crate) fn json_with_string_array(text: &str, key: &str, values: &Vec<String>) -> (r: String)
    ensures
        r@ == json_with_string_array_of(text@, key@, crate::text::views(values@)),
{
    let mut v: serde_json::Value = serde_json::from_str(text).unwrap_or_default();
    if let Some(object) = v.as_object_mut() {
        let items = values.iter().map(|s| serde_json::Value::String(s.clone())).collect();
        object.insert(key.to_string(), serde_json::Value::Array(items));
    }
    serde_json::to_string(&v).unwrap_or_default()
}

/// `serde_json::from_str::<Value>` then `serde_json::to_string_pretty`: the JSON value `text`
/// printed with two-space indentation.
#[verifier::external_body]
pub(crate) fn json_pretty(text: &str) -> (r: String)
    ensures
        r@ == json_pretty_of(text@),
{
    let v: serde_json::Value = serde_json::from_str(text).unwrap_or_default();
    serde_json::to_string_pretty(&v).unwrap_or_default()
}

/// `serde_json::Map::insert` of each name with its string value, in order, then
/// `serde_json::to_string_pretty` of the object: the JSON object of the string members
/// `entries`, printed with two-space indentation.
#[verifier::external_body]
pub(crate) fn json_pretty_string_object(entries: &Vec<(String, String)>) -> (r: String)
    ensures
        r@ == json_pretty_string_object_of(crate::text::pair_views(entries@)),
{
    let mut object = serde_json::Map::new();
    for (name, value) in entries {
        object.insert(name.clone(), serde_json::Value::String(value.clone()));
    }
    serde_json::to_string_pretty(&serde_json::Value::Object(object)).unwrap_or_default()
}

} // verus!

use vstd::prelude::*;
use serde_json::Value;

verus! {

/// A parsed JSON value. Nothing inside it is visible to the verifier; the
/// functions below say what can be read from it.
#[verifier::external_type_specification]
#[verifier::external_body]
pub struct ExValue(serde_json::Value);

/// The reason a text was not accepted as JSON.
#[verifier::external_type_specification]
#[verifier::external_body]
pub struct ExJsonError(serde_json::Error);

/// The value that `bytes` denote as a JSON document, where they denote one.
pub uninterp spec fn json_document(bytes: Seq<u8>) -> Option<Value>;

/// The member of the object `value` under `key`; none where `value` is no
/// object or has no such member.
pub uninterp spec fn json_member(value: Value, key: Seq<char>) -> Option<Value>;

/// The elements of the array `value`, in order; none where it is no array.
pub uninterp spec fn json_items(value: Value) -> Option<Seq<Value>>;

/// The characters of the string `value`; none where it is no string.
pub uninterp spec fn json_text(value: Value) -> Option<Seq<char>>;

/// The members of the object `value`, each with its key, in the order in
/// which the object is walked; none where it is no object.
pub uninterp spec fn json_entries(value: Value) -> Option<Seq<(Seq<char>, Value)>>;

/// The keys and values of a list of borrowed members.
pub open spec fn entry_pairs(entries: Seq<(String, &Value)>) -> Seq<(Seq<char>, Value)> {
    Seq::new(entries.len(), |i: int| (entries[i].0@, *entries[i].1))
}

/// `serde_json::from_slice`, read as a `Value`. Trusted: it succeeds exactly
/// on the bytes that denote a document, and then returns that document.
#[verifier::external_body]
pub(crate) fn parse_document(bytes: &[u8]) -> (parsed: Result<Value, serde_json::Error>)
    ensures
        parsed is Ok <==> json_document(bytes@) is Some,
        parsed matches Ok(document) ==> json_document(bytes@) == Some(document),
{
    serde_json::from_slice(bytes)
}

/// `Value::get` with a string key. Trusted: it returns the member under
/// `key` where `value` is an object that has one, and nothing otherwise.
#[verifier::external_body]
pub(crate) fn member<'a>(value: &'a Value, key: &str) -> (found: Option<&'a Value>)
    ensures
        found is Some <==> json_member(*value, key@) is Some,
        found matches Some(m) ==> json_member(*value, key@) == Some(*m),
{
    value.get(key)
}

/// `Value::as_array`. Trusted: it returns the elements where `value` is an
/// array, and nothing otherwise.
#[verifier::external_body]
pub(crate) fn items<'a>(value: &'a Value) -> (found: Option<&'a Vec<Value>>)
    ensures
        found is Some <==> json_items(*value) is Some,
        found matches Some(elements) ==> json_items(*value) == Some(elements@),
{
    value.as_array()
}

/// `Value::as_str`. Trusted: it returns the characters where `value` is a
/// string, and nothing otherwise.
#[verifier::external_body]
pub(crate) fn text<'a>(value: &'a Value) -> (found: Option<&'a str>)
    ensures
        found is Some <==> json_text(*value) is Some,
        found matches Some(characters) ==> json_text(*value) == Some(characters@),
{
    value.as_str()
}

/// `Value::as_object` followed by `Map::iter`. Trusted: where `value` is an
/// object it returns every member with a copy of its key, in the order of
/// the walk, and nothing otherwise.
#[verifier::external_body]
pub(crate) fn entries<'a>(value: &'a Value) -> (found: Option<Vec<(String, &'a Value)>>)
    ensures
        found is Some <==> json_entries(*value) is Some,
        found matches Some(members) ==> json_entries(*value) == Some(entry_pairs(members@)),
{
    match value.as_object() {
        Some(object) => Some(object.iter().map(|(key, member)| (key.clone(), member)).collect()),
        None => None,
    }
}

} // verus!

//! JSON values as this library sees them.
//!
//! Values are `serde_json`'s own [`Value`] and [`JsonObject`]. Verus cannot
//! look inside them, so every read and every construction goes through one
//! of the small operations at the end of this file. Each of them calls one
//! `serde_json` or `serde_yaml` function, and its contract says what that
//! function does in terms of the mathematical model [`Json`]. These
//! contracts are believed, not proved; everything else in the crate is
//! proved from them.

use serde_json::Value;
use vstd::prelude::*;

verus! {

/// Mathematical model of a JSON value.
///
/// An object is the sequence of its entries in iteration order, which with
/// `serde_json`'s `preserve_order` feature is the order of first insertion.
/// A number is stood for by its decimal text; this library never reads one.
pub enum Json {
    Null,
    Bool(bool),
    Number(Seq<char>),
    Text(Seq<char>),
    List(Seq<Json>),
    Object(Seq<(Seq<char>, Json)>),
}

/// The entries of a JSON object: key and value, in order.
pub type Entries = Seq<(Seq<char>, Json)>;

/// A JSON object: string keys, each with a value, in insertion order.
pub type JsonObject = serde_json::Map<String, Value>;

#[verifier::external_type_specification]
#[verifier::external_body]
pub struct ExValue(Value);

#[verifier::external_type_specification]
#[verifier::external_body]
#[verifier::reject_recursive_types(K)]
#[verifier::reject_recursive_types(V)]
pub struct ExMap<K, V>(serde_json::Map<K, V>);

/// The JSON value that a `serde_json::Value` holds.
pub uninterp spec fn json_of(value: Value) -> Json;

/// The entries that a `serde_json::Map` holds, in iteration order.
pub uninterp spec fn entries_of(object: serde_json::Map<String, Value>) -> Entries;

/// What `serde_json::from_str` reads from `text`: the value, or nothing where
/// it reports an error.
pub uninterp spec fn json_text_value(text: Seq<char>) -> Option<Json>;

/// What `serde_yaml::from_str` reads from `text` as a JSON value: the value,
/// or nothing where it reports an error.
pub uninterp spec fn yaml_text_value(text: Seq<char>) -> Option<Json>;

/// The compact JSON text that `serde_json::to_string` writes for a value.
pub uninterp spec fn json_text_of(value: Json) -> Seq<char>;

/// Whether some entry has the key.
pub open spec fn has_key(entries: Entries, key: Seq<char>) -> bool {
    exists|i: int| 0 <= i < entries.len() && (#[trigger] entries[i]).0 == key
}

/// Whether `i` is the position of the first entry with the key.
pub open spec fn is_key_index(entries: Entries, key: Seq<char>, i: int) -> bool {
    &&& 0 <= i < entries.len()
    &&& entries[i].0 == key
    &&& forall|j: int| 0 <= j < i ==> (#[trigger] entries[j]).0 != key
}

/// The position of the first entry with the key, where there is one.
pub open spec fn key_index(entries: Entries, key: Seq<char>) -> int {
    choose|i: int| is_key_index(entries, key, i)
}

/// The value under the key, if the object has the key.
pub open spec fn lookup(entries: Entries, key: Seq<char>) -> Option<Json> {
    if has_key(entries, key) {
        Some(entries[key_index(entries, key)].1)
    } else {
        None
    }
}

/// The entries after the key is set to the value: replaced in place where
/// the key was there, appended otherwise.
pub open spec fn upsert(entries: Entries, key: Seq<char>, value: Json) -> Entries {
    if has_key(entries, key) {
        entries.update(key_index(entries, key), (key, value))
    } else {
        entries.push((key, value))
    }
}

/// What a text holds when it is read as JSON and, where that fails, as YAML.
pub open spec fn text_value_of(text: Seq<char>) -> Option<Json> {
    match json_text_value(text) {
        Some(value) => Some(value),
        None => yaml_text_value(text),
    }
}

/// Setting a key in an object without entries gives the one entry.
pub proof fn lemma_upsert_first(key: Seq<char>, value: Json)
    ensures
        upsert(Seq::empty(), key, value) == seq![(key, value)],
{
    assert(upsert(Seq::empty(), key, value) =~= seq![(key, value)]);
}

/// Setting two different keys in an object without entries gives the two
/// entries, in the order of setting.
pub proof fn lemma_upsert_second(
    first_key: Seq<char>,
    first: Json,
    second_key: Seq<char>,
    second: Json,
)
    requires
        first_key != second_key,
    ensures
        upsert(upsert(Seq::empty(), first_key, first), second_key, second) == seq![
            (first_key, first),
            (second_key, second),
        ],
{
    lemma_upsert_first(first_key, first);
    let one = seq![(first_key, first)];
    assert(one[0].0 != second_key);
    assert(upsert(one, second_key, second) =~= seq![(first_key, first), (second_key, second)]);
}

/// `serde_json::from_str`, read as a `Value`: the parsed value, or nothing
/// where the text is not JSON. The result depends on the text alone.
#[verifier::external_body]
pub(crate) fn parse_json(text: &str) -> (parsed: Option<Value>)
    ensures
        match parsed {
            Some(value) => json_text_value(text@) == Some(json_of(value)),
            None => json_text_value(text@) is None,
        },
{
    serde_json::from_str::<Value>(text).ok()
}

/// `serde_yaml::from_str`, read as a `serde_json::Value`: the parsed value,
/// or nothing where the text is not YAML that such a value can hold. The
/// result depends on the text alone.
#[verifier::external_body]
pub(crate) fn parse_yaml(text: &str) -> (parsed: Option<Value>)
    ensures
        match parsed {
            Some(value) => yaml_text_value(text@) == Some(json_of(value)),
            None => yaml_text_value(text@) is None,
        },
{
    serde_yaml::from_str::<Value>(text).ok()
}

/// `serde_json::to_string` on a `Value`: its compact JSON text, which
/// depends on what the value holds alone. An error, which writing a `Value`
/// to a string does not raise, would give the empty text.
#[verifier::external_body]
pub(crate) fn to_text(value: &Value) -> (text: String)
    ensures
        text@ == json_text_of(json_of(*value)),
{
    serde_json::to_string(value).unwrap_or_default()
}

/// `Value::as_object`: the map inside an object, nothing for any other value.
#[verifier::external_body]
pub(crate) fn as_object(value: &Value) -> (object: Option<&JsonObject>)
    ensures
        match object {
            Some(entries) => json_of(*value) == Json::Object(entries_of(*entries)),
            None => !(json_of(*value) is Object),
        },
{
    value.as_object()
}

/// `Value::as_str`: the text inside a string, nothing for any other value.
#[verifier::external_body]
pub(crate) fn as_str(value: &Value) -> (text: Option<&str>)
    ensures
        match text {
            Some(t) => json_of(*value) == Json::Text(t@),
            None => !(json_of(*value) is Text),
        },
{
    value.as_str()
}

/// `Value::Object`: the object that holds the map's entries.
#[verifier::external_body]
pub(crate) fn object_value(object: JsonObject) -> (value: Value)
    ensures
        json_of(value) == Json::Object(entries_of(object)),
{
    Value::Object(object)
}

/// `Value::String`: the string that holds the text.
#[verifier::external_body]
pub(crate) fn text_value(text: String) -> (value: Value)
    ensures
        json_of(value) == Json::Text(text@),
{
    Value::String(text)
}

/// `Value::Null`.
#[verifier::external_body]
pub(crate) fn null_value() -> (value: Value)
    ensures
        json_of(value) == Json::Null,
{
    Value::Null
}

/// `Value::clone`: a copy that holds the same value.
#[verifier::external_body]
pub(crate) fn clone_value(value: &Value) -> (copy: Value)
    ensures
        json_of(copy) == json_of(*value),
{
    value.clone()
}

/// `Map::new`: a map without entries.
#[verifier::external_body]
pub(crate) fn new_object() -> (object: JsonObject)
    ensures
        entries_of(object) == Seq::<(Seq<char>, Json)>::empty(),
{
    serde_json::Map::new()
}

/// `Map::clone`: a copy that holds the same entries in the same order.
#[verifier::external_body]
pub(crate) fn clone_object(object: &JsonObject) -> (copy: JsonObject)
    ensures
        entries_of(copy) == entries_of(*object),
{
    object.clone()
}

/// `Map::is_empty`.
#[verifier::external_body]
pub(crate) fn object_is_empty(object: &JsonObject) -> (empty: bool)
    ensures
        empty == (entries_of(*object).len() == 0),
{
    object.is_empty()
}

/// `Map::get`: the value of the entry with the key, nothing where no entry
/// has it.
#[verifier::external_body]
pub(crate) fn object_get<'a>(object: &'a JsonObject, key: &str) -> (found: Option<&'a Value>)
    ensures
        match found {
            Some(value) => lookup(entries_of(*object), key@) == Some(json_of(*value)),
            None => lookup(entries_of(*object), key@) is None,
        },
{
    object.get(key)
}

/// `Map::insert` with `preserve_order`: an entry with the key keeps its
/// place and takes the new value; a new key goes to the end.
#[verifier::external_body]
pub(crate) fn object_insert(object: &mut JsonObject, key: String, value: Value)
    ensures
        entries_of(*final(object)) == upsert(entries_of(*old(object)), key@, json_of(value)),
{
    object.insert(key, value);
}

/// Reads a text as JSON and, where that fails, as YAML.
pub fn parse_json_or_yaml(text: &str) -> (parsed: Option<Value>)
    ensures
        match parsed {
            Some(value) => text_value_of(text@) == Some(json_of(value)),
            None => text_value_of(text@) is None,
        },
{
    match parse_json(text) {
        Some(value) => Some(value),
        None => parse_yaml(text),
    }
}

} // verus!

//! JSON documents.
//!
//! Requests and responses are `serde_json::Value`s: dynamically shaped trees
//! that may carry any field. The verifier cannot look inside such a value,
//! so this module gives it a mathematical model, [`JsonTree`], and states
//! what each `serde_json` operation used by the relay does in terms of that
//! model. Everything in here marked as assumed is believed by the verifier
//! without proof; the rest of the crate is proved on top of it.

use serde_json::Value;
use vstd::prelude::*;

verus! {

/// What a JSON number stands for.
pub enum JsonNumber {
    /// An integer. `serde_json` keeps integers between `i64::MIN` and
    /// `u64::MAX`.
    Integer(int),
    /// Any other finite number, by the bit pattern of its binary64 form.
    Binary64(u64),
}

/// What a JSON document stands for.
pub enum JsonTree {
    Null,
    Boolean(bool),
    Number(JsonNumber),
    Text(Seq<char>),
    Array(Seq<JsonTree>),
    Object(Map<Seq<char>, JsonTree>),
}

/// `serde_json::Value`, taken as it is; what it holds is told by
/// [`tree_of`].
#[verifier::external_type_specification]
#[verifier::external_body]
pub struct ExValue(serde_json::Value);

/// `serde_json::Error`, taken as it is; nothing is said of what it holds.
#[verifier::external_type_specification]
#[verifier::external_body]
pub struct ExError(serde_json::Error);

/// `serde_json::Map`, taken as it is; what it holds is told by
/// [`fields_of`].
#[verifier::external_type_specification]
#[verifier::external_body]
#[verifier::reject_recursive_types(K)]
#[verifier::reject_recursive_types(V)]
pub struct ExMap<K, V>(serde_json::Map<K, V>);

/// The document that a `serde_json::Value` holds.
pub uninterp spec fn tree_of(value: serde_json::Value) -> JsonTree;

/// The fields that a `serde_json::Map` holds, by key.
pub uninterp spec fn fields_of(map: serde_json::Map<String, Value>) -> Map<Seq<char>, JsonTree>;

/// The document that `serde_json::from_slice` reads from `bytes`, or `None`
/// where it reports an error.
pub uninterp spec fn decoded(bytes: Seq<u8>) -> Option<JsonTree>;

/// The bytes that `serde_json::to_vec` writes for `tree`, or `None` where it
/// reports an error.
pub uninterp spec fn encoded(tree: JsonTree) -> Option<Seq<u8>>;

/// The member `key` of `tree`: present only in an object that has the key.
pub open spec fn lookup(tree: JsonTree, key: Seq<char>) -> Option<JsonTree> {
    match tree {
        JsonTree::Object(fields) => if fields.contains_key(key) {
            Some(fields[key])
        } else {
            None
        },
        _ => None,
    }
}

/// The text of `tree`, where it is a string.
pub open spec fn text_of(tree: JsonTree) -> Option<Seq<char>> {
    match tree {
        JsonTree::Text(text) => Some(text),
        _ => None,
    }
}

/// The truth value of `tree`, where it is a boolean.
pub open spec fn boolean_of(tree: JsonTree) -> Option<bool> {
    match tree {
        JsonTree::Boolean(b) => Some(b),
        _ => None,
    }
}

/// The integer that `tree` stands for, where it is an integer number.
pub open spec fn integer_of(tree: JsonTree) -> Option<int> {
    match tree {
        JsonTree::Number(JsonNumber::Integer(n)) => Some(n),
        _ => None,
    }
}

/// `tree` read as an `i64`: an integer number within the range of `i64`.
pub open spec fn signed_of(tree: JsonTree) -> Option<i64> {
    match integer_of(tree) {
        Some(n) => if i64::MIN <= n <= i64::MAX {
            Some(n as i64)
        } else {
            None
        },
        None => None,
    }
}

/// `tree` read as a `u64`: an integer number within the range of `u64`.
pub open spec fn unsigned_of(tree: JsonTree) -> Option<u64> {
    match integer_of(tree) {
        Some(n) => if 0 <= n <= u64::MAX {
            Some(n as u64)
        } else {
            None
        },
        None => None,
    }
}

/// Assumed of `serde_json::from_slice`, read at type `Value`: it fails
/// exactly where [`decoded`] has no document for the bytes, and otherwise
/// returns a value that holds that document. The result depends on the bytes
/// alone.
#[verifier::external_body]
pub(crate) fn from_slice(bytes: &[u8]) -> (result: Result<Value, serde_json::Error>)
    ensures
        match result {
            Ok(value) => decoded(bytes@) == Some(tree_of(value)),
            Err(_) => decoded(bytes@) is None,
        },
{
    serde_json::from_slice::<Value>(bytes)
}

/// Assumed of `serde_json::to_vec`, called on a `Value`: it fails exactly
/// where [`encoded`] has no bytes for the document, and otherwise returns
/// those bytes. The result depends on the document alone.
#[verifier::external_body]
pub(crate) fn to_vec(value: &Value) -> (result: Result<Vec<u8>, serde_json::Error>)
    ensures
        match result {
            Ok(bytes) => encoded(tree_of(*value)) == Some(bytes@),
            Err(_) => encoded(tree_of(*value)) is None,
        },
{
    serde_json::to_vec(value)
}

/// Assumed of `Value::get` with a string index: it returns the member under
/// `key` of an object that has one, and `None` for an object without the key
/// and for every value that is no object.
#[verifier::external_body]
pub(crate) fn get<'a>(value: &'a Value, key: &str) -> (member: Option<&'a Value>)
    ensures
        match member {
            Some(found) => lookup(tree_of(*value), key@) == Some(tree_of(*found)),
            None => lookup(tree_of(*value), key@) is None,
        },
{
    value.get(key)
}

/// Assumed of `Value::as_str`: the text of a string, `None` for every other
/// value.
pub assume_specification<'a>[ Value::as_str ](value: &'a Value) -> (text: Option<&'a str>)
    ensures
        match text {
            Some(s) => text_of(tree_of(*value)) == Some(s@),
            None => text_of(tree_of(*value)) is None,
        },
;

/// Assumed of `Value::as_bool`: the truth value of a boolean, `None` for
/// every other value.
pub assume_specification[ Value::as_bool ](value: &Value) -> (b: Option<bool>)
    ensures
        b == boolean_of(tree_of(*value)),
;

/// Assumed of `Value::as_i64`: the value of an integer number that fits
/// `i64`, `None` for every other value.
pub assume_specification[ Value::as_i64 ](value: &Value) -> (n: Option<i64>)
    ensures
        n == signed_of(tree_of(*value)),
;

/// Assumed of `Value::as_u64`: the value of an integer number that fits
/// `u64`, `None` for every other value.
pub assume_specification[ Value::as_u64 ](value: &Value) -> (n: Option<u64>)
    ensures
        n == unsigned_of(tree_of(*value)),
;

/// Assumed of `Value::as_object_mut`: for an object it hands out the map of
/// its fields, and whatever the caller leaves in that map is what the object
/// holds afterwards; any other value yields `None` and stays as it is.
pub assume_specification<'a>[ Value::as_object_mut ](value: &'a mut Value) -> (object: Option<
    &'a mut serde_json::Map<String, Value>,
>)
    ensures
        match object {
            Some(map) => tree_of(*old(value)) == JsonTree::Object(fields_of(*map)) && tree_of(
                *final(value),
            ) == JsonTree::Object(fields_of(*final(map))),
            None => !(tree_of(*old(value)) is Object) && *final(value) == *old(value),
        },
;

/// Assumed of `Map::remove` with a string key: afterwards the map lacks
/// `key` and is otherwise unchanged; the value that was under `key` is
/// returned, `None` where there was none.
#[verifier::external_body]
pub(crate) fn map_remove(map: &mut serde_json::Map<String, Value>, key: &str) -> (removed: Option<
    Value,
>)
    ensures
        fields_of(*final(map)) == fields_of(*old(map)).remove(key@),
        match removed {
            Some(previous) => fields_of(*old(map)).contains_key(key@) && fields_of(*old(map))[key@]
                == tree_of(previous),
            None => !fields_of(*old(map)).contains_key(key@),
        },
{
    map.remove(key)
}

/// Assumed of `Map::insert`: afterwards the map holds `value` under `key`
/// and is otherwise unchanged; the value that was under `key` is returned,
/// `None` where there was none.
pub assume_specification[ serde_json::Map::<String, Value>::insert ](
    map: &mut serde_json::Map<String, Value>,
    key: String,
    value: Value,
) -> (replaced: Option<Value>)
    ensures
        fields_of(*final(map)) == fields_of(*old(map)).insert(key@, tree_of(value)),
        match replaced {
            Some(previous) => fields_of(*old(map)).contains_key(key@) && fields_of(*old(map))[key@]
                == tree_of(previous),
            None => !fields_of(*old(map)).contains_key(key@),
        },
;

/// Assumed of the constructor `Value::String`: the value is the string with
/// the given text.
#[verifier::external_body]
pub(crate) fn text_value(text: String) -> (value: Value)
    ensures
        tree_of(value) == JsonTree::Text(text@),
{
    Value::String(text)
}

} // verus!

//! JSON documents as `serde_json` holds them, and what the gateway reads from them.

use serde_json::Value;
use vstd::prelude::*;

verus! {

/// `serde_json::Value`: a parsed JSON document, carried through as it is.
#[verifier::external_type_specification]
#[verifier::external_body]
pub struct ExValue(serde_json::Value);

/// A JSON number as contracts see it.
pub enum JsonNumber {
    /// A whole number between `i64::MIN` and `u64::MAX`.
    Integer(int),
    /// Any other number, held by the text that stands for it.
    Real(Seq<char>),
}

/// The mathematical content of a JSON document.
pub enum JsonTree {
    Null,
    Bool(bool),
    Number(JsonNumber),
    Text(Seq<char>),
    Array(Seq<JsonTree>),
    Object(Map<Seq<char>, JsonTree>),
}

impl JsonTree {
    /// The member stored under `key`, where `self` is an object that has one.
    pub open spec fn member(self, key: Seq<char>) -> Option<JsonTree> {
        match self {
            JsonTree::Object(m) => if m.dom().contains(key) {
                Some(m[key])
            } else {
                None
            },
            _ => None,
        }
    }

    /// The boolean, where `self` is one.
    pub open spec fn as_bool(self) -> Option<bool> {
        match self {
            JsonTree::Bool(b) => Some(b),
            _ => None,
        }
    }

    /// The number as a signed 64-bit integer, where it is a whole number in that range.
    pub open spec fn as_i64(self) -> Option<i64> {
        match self {
            JsonTree::Number(JsonNumber::Integer(i)) => if i64::MIN <= i <= i64::MAX {
                Some(i as i64)
            } else {
                None
            },
            _ => None,
        }
    }

    /// The text, where `self` is a string.
    pub open spec fn as_text(self) -> Option<Seq<char>> {
        match self {
            JsonTree::Text(s) => Some(s),
            _ => None,
        }
    }

    /// `self` with `value` stored under `key`; anything but an object is left as it is.
    pub open spec fn with_member(self, key: Seq<char>, value: JsonTree) -> JsonTree {
        match self {
            JsonTree::Object(m) => JsonTree::Object(m.insert(key, value)),
            _ => self,
        }
    }
}

/// What a `serde_json::Value` holds. The members of an object are taken without order:
/// `serde_json` keeps them sorted by key.
pub uninterp spec fn json_tree(v: Value) -> JsonTree;

/// The document that `serde_json::from_slice` reads from `bytes`, if it accepts them.
pub uninterp spec fn json_parsed(bytes: Seq<u8>) -> Option<JsonTree>;

/// The bytes that `serde_json::to_vec` writes for a document, if it writes any.
pub uninterp spec fn json_rendered(tree: JsonTree) -> Option<Seq<u8>>;

/// Calls `serde_json::from_slice::<Value>`. The contract names the document read; nothing is
/// claimed about which byte strings are accepted.
#[verifier::external_body]
pub(crate) fn parse_document(data: &[u8]) -> (r: Option<Value>)
    ensures
        match r {
            Some(v) => json_parsed(data@) == Some(json_tree(v)),
            None => json_parsed(data@) is None,
        },
{
    serde_json::from_slice::<Value>(data).ok()
}

/// Calls `Value::get` with a string key: the member under `key` when `v` is an object that has
/// it, and nothing otherwise.
#[verifier::external_body]
pub(crate) fn member<'a>(v: &'a Value, key: &str) -> (r: Option<&'a Value>)
    ensures
        match r {
            Some(c) => json_tree(*v).member(key@) == Some(json_tree(*c)),
            None => json_tree(*v).member(key@) is None,
        },
{
    v.get(key)
}

/// Calls `Value::as_bool`: the boolean when `v` is one.
#[verifier::external_body]
pub(crate) fn bool_of(v: &Value) -> (r: Option<bool>)
    ensures
        r == json_tree(*v).as_bool(),
{
    v.as_bool()
}

/// Calls `Value::as_i64`: the number when `v` is a whole number that fits an `i64`.
#[verifier::external_body]
pub(crate) fn i64_of(v: &Value) -> (r: Option<i64>)
    ensures
        r == json_tree(*v).as_i64(),
{
    v.as_i64()
}

/// Calls `Value::as_str`: the text when `v` is a string.
#[verifier::external_body]
pub(crate) fn text_of<'a>(v: &'a Value) -> (r: Option<&'a str>)
    ensures
        match r {
            Some(s) => json_tree(*v).as_text() == Some(s@),
            None => json_tree(*v).as_text() is None,
        },
{
    v.as_str()
}

/// Calls `Value::as_object_mut` and `Map::insert`: where `v` is an object, the string `value`
/// is stored under `key`, replacing what was there; any other `v` is left as it is.
#[verifier::external_body]
pub(crate) fn set_text_member(v: &mut Value, key: &str, value: &str)
    ensures
        json_tree(*final(v)) == json_tree(*old(v)).with_member(key@, JsonTree::Text(value@)),
{
    if let Some(object) = v.as_object_mut() {
        object.insert(key.to_string(), Value::String(value.to_string()));
    }
}

/// Calls `serde_json::to_vec`. The contract names the bytes written.
#[verifier::external_body]
pub(crate) fn render_document(v: &Value) -> (r: Option<Vec<u8>>)
    ensures
        match r {
            Some(bytes) => json_rendered(json_tree(*v)) == Some(bytes@),
            None => json_rendered(json_tree(*v)) is None,
        },
{
    serde_json::to_vec(v).ok()
}

/// The text that `serde_json::to_string` writes for a document, if it writes any.
pub uninterp spec fn json_text(tree: JsonTree) -> Option<Seq<char>>;

/// Makes `Value::Object` of `serde_json::Map::new()`: an object without members.
#[verifier::external_body]
pub(crate) fn empty_object() -> (r: Value)
    ensures
        json_tree(r) == JsonTree::Object(Map::empty()),
{
    Value::Object(serde_json::Map::new())
}

/// Calls `serde_json::to_string`. The contract names the text written.
#[verifier::external_body]
pub(crate) fn render_text(v: &Value) -> (r: Option<String>)
    ensures
        match r {
            Some(s) => json_text(json_tree(*v)) == Some(s@),
            None => json_text(json_tree(*v)) is None,
        },
{
    serde_json::to_string(v).ok()
}

} // verus!

//! JSON documents: their mathematical content, the `serde_json` operations
//! the library relies on, and the field readers and writers that the
//! resource schemas are built from.

use serde_json::Value;
use vstd::prelude::*;

verus! {

/// The mathematical content of a JSON number.
pub enum NumberView {
    /// A number written without fraction or exponent.
    Integer(int),
    /// Any other number, by the bits of its binary64 form.
    Real(u64),
}

/// The mathematical content of a JSON document.
pub enum JsonView {
    Null,
    Bool(bool),
    Number(NumberView),
    String(Seq<char>),
    Array(Seq<JsonView>),
    Object(Map<Seq<char>, JsonView>),
}

impl JsonView {
    /// The member stored under `key`; `None` where this is no object or the
    /// object has no such member.
    pub open spec fn member(self, key: Seq<char>) -> Option<JsonView> {
        match self {
            JsonView::Object(members) => if members.contains_key(key) {
                Some(members[key])
            } else {
                None
            },
            _ => None,
        }
    }

    /// The member stored under `key`, where an absent member and a `null`
    /// one both count as no value.
    pub open spec fn field(self, key: Seq<char>) -> Option<JsonView> {
        match self.member(key) {
            Some(JsonView::Null) => None,
            other => other,
        }
    }

    /// A required string member: `None` where it is missing or no string.
    pub open spec fn required_text(self, key: Seq<char>) -> Option<Seq<char>> {
        match self.member(key) {
            Some(JsonView::String(text)) => Some(text),
            _ => None,
        }
    }

    /// A required boolean member: `None` where it is missing or no boolean.
    pub open spec fn required_flag(self, key: Seq<char>) -> Option<bool> {
        match self.member(key) {
            Some(JsonView::Bool(flag)) => Some(flag),
            _ => None,
        }
    }

    /// An optional string member: `Some(None)` where it is absent or `null`,
    /// `None` where it is present with another type.
    pub open spec fn optional_text(self, key: Seq<char>) -> Option<Option<Seq<char>>> {
        match self.field(key) {
            None => Some(None),
            Some(JsonView::String(text)) => Some(Some(text)),
            Some(_) => None,
        }
    }

    /// An optional boolean member: `Some(None)` where it is absent or
    /// `null`, `None` where it is present with another type.
    pub open spec fn optional_flag(self, key: Seq<char>) -> Option<Option<bool>> {
        match self.field(key) {
            None => Some(None),
            Some(JsonView::Bool(flag)) => Some(Some(flag)),
            Some(_) => None,
        }
    }

    /// A required array member: `None` where it is missing or no array.
    pub open spec fn required_items(self, key: Seq<char>) -> Option<Seq<JsonView>> {
        match self.member(key) {
            Some(JsonView::Array(items)) => Some(items),
            _ => None,
        }
    }

    /// A required object member: `None` where it is missing or no object.
    pub open spec fn required_members(self, key: Seq<char>) -> Option<Map<Seq<char>, JsonView>> {
        match self.member(key) {
            Some(JsonView::Object(members)) => Some(members),
            _ => None,
        }
    }

    /// An optional object member: `Some(None)` where it is absent or
    /// `null`, `None` where it is present with another type.
    pub open spec fn optional_members(self, key: Seq<char>) -> Option<Option<Map<Seq<char>, JsonView>>> {
        match self.field(key) {
            None => Some(None),
            Some(JsonView::Object(members)) => Some(Some(members)),
            Some(_) => None,
        }
    }

    /// An optional member read against a schema: `Some(None)` where it is
    /// absent or `null`, `None` where it is present and does not fit.
    pub open spec fn optional_nested<T>(
        self,
        key: Seq<char>,
        schema: spec_fn(JsonView) -> Option<T>,
    ) -> Option<Option<T>> {
        match self.field(key) {
            None => Some(None),
            Some(json) => match schema(json) {
                Some(resource) => Some(Some(resource)),
                None => None,
            },
        }
    }

    /// A required member read against a schema: `None` where it is
    /// missing or does not fit.
    pub open spec fn required_nested<T>(
        self,
        key: Seq<char>,
        schema: spec_fn(JsonView) -> Option<T>,
    ) -> Option<T> {
        match self.member(key) {
            Some(json) => schema(json),
            None => None,
        }
    }
}

/// Every document of a sequence read against a schema, in order: `None`
/// where one of them does not fit.
pub open spec fn each_decoded<T>(
    items: Seq<JsonView>,
    schema: spec_fn(JsonView) -> Option<T>,
) -> Option<Seq<T>> {
    if forall|i: int| 0 <= i < items.len() ==> (#[trigger] schema(items[i])) is Some {
        Some(Seq::new(items.len(), |i: int| schema(items[i])->0))
    } else {
        None
    }
}

/// The members of the object `{}`.
pub open spec fn no_members() -> Map<Seq<char>, JsonView> {
    Map::empty()
}

/// The contents of the elements of a JSON array.
pub open spec fn array_view(items: Seq<Value>) -> Seq<JsonView> {
    Seq::new(items.len(), |i: int| json_view(items[i]))
}

/// `serde_json::Value`, a JSON document in memory. Nothing is known of a
/// value but what [`json_view`] names and the operations below state.
#[verifier::external_type_specification]
#[verifier::external_body]
pub struct ExValue(serde_json::Value);

/// `serde_json::Map`, the members of a JSON object in memory. Nothing is
/// known of a map but what [`object_view`] names and the operations below
/// state.
#[verifier::external_type_specification]
#[verifier::external_body]
#[verifier::reject_recursive_types(K)]
#[verifier::reject_recursive_types(V)]
pub struct ExMap<K, V>(serde_json::Map<K, V>);

/// The document that a `serde_json::Value` holds.
pub uninterp spec fn json_view(value: Value) -> JsonView;

/// The members that a `serde_json::Map` holds, by key.
pub uninterp spec fn object_view(members: serde_json::Map<String, Value>) -> Map<Seq<char>, JsonView>;

/// The document that `serde_json::from_str` reads from a text, or `None`
/// where it reports an error.
pub uninterp spec fn json_parse(text: Seq<char>) -> Option<JsonView>;

/// The compact text that `serde_json` writes for a document.
pub uninterp spec fn json_text(json: JsonView) -> Seq<char>;

/// `serde_json::Value::as_str`: the text of a string value, and `None` for
/// every other kind of value.
pub assume_specification[ serde_json::Value::as_str ](value: &Value) -> (r: Option<&str>)
    ensures
        match r {
            Some(text) => json_view(*value) == JsonView::String(text@),
            None => !(json_view(*value) is String),
        },
;

/// `serde_json::Value::as_bool`: the flag of a boolean value, and `None`
/// for every other kind of value.
pub assume_specification[ serde_json::Value::as_bool ](value: &Value) -> (r: Option<bool>)
    ensures
        match r {
            Some(flag) => json_view(*value) == JsonView::Bool(flag),
            None => !(json_view(*value) is Bool),
        },
;

/// `serde_json::Value::is_null`: whether the value is `null`.
pub assume_specification[ serde_json::Value::is_null ](value: &Value) -> (r: bool)
    ensures
        r == (json_view(*value) is Null),
;

/// `serde_json::Value::as_array`: the elements of an array value, in
/// order, and `None` for every other kind of value.
pub assume_specification[ serde_json::Value::as_array ](
    value: &Value,
) -> (r: Option<&Vec<Value>>)
    ensures
        match r {
            Some(items) => json_view(*value) == JsonView::Array(array_view(items@)),
            None => !(json_view(*value) is Array),
        },
;

/// `serde_json::Value::as_object`: the members of an object value, and
/// `None` for every other kind of value.
pub assume_specification[ serde_json::Value::as_object ](
    value: &Value,
) -> (r: Option<&serde_json::Map<String, Value>>)
    ensures
        match r {
            Some(members) => json_view(*value) == JsonView::Object(object_view(*members)),
            None => !(json_view(*value) is Object),
        },
;

/// `serde_json::Map::new`: a map without members.
pub assume_specification[ serde_json::Map::new ]() -> (r: serde_json::Map<String, Value>)
    ensures
        object_view(r) == no_members(),
;

/// `serde_json::Map::insert`: stores the value under the key, replacing and
/// handing back what the key held before.
pub assume_specification[ serde_json::Map::insert ](
    members: &mut serde_json::Map<String, Value>,
    k: String,
    v: Value,
) -> (r: Option<Value>)
    ensures
        object_view(*final(members)) == object_view(*old(members)).insert(k@, json_view(v)),
        match r {
            Some(previous) => object_view(*old(members)).contains_key(k@) && json_view(previous)
                == object_view(*old(members))[k@],
            None => !object_view(*old(members)).contains_key(k@),
        },
;

/// `Clone` for `serde_json::Map`: a map with the same members.
pub assume_specification[ <serde_json::Map<String, Value> as Clone>::clone ](
    members: &serde_json::Map<String, Value>,
) -> (r: serde_json::Map<String, Value>)
    ensures
        object_view(r) == object_view(*members),
;

/// `From<String>` for `serde_json::Value`: the string value with that text.
pub assume_specification[ <Value as From<String>>::from ](f: String) -> (r: Value)
    ensures
        json_view(r) == JsonView::String(f@),
;

/// `From<bool>` for `serde_json::Value`: the boolean value with that flag.
pub assume_specification[ <Value as From<bool>>::from ](f: bool) -> (r: Value)
    ensures
        json_view(r) == JsonView::Bool(f),
;

/// `From<i32>` for `serde_json::Value`: the integer number of that value.
pub assume_specification[ <Value as From<i32>>::from ](n: i32) -> (r: Value)
    ensures
        json_view(r) == JsonView::Number(NumberView::Integer(n as int)),
;

/// `From<serde_json::Map>` for `serde_json::Value`: the object value with those members.
pub assume_specification[ <Value as From<serde_json::Map<String, Value>>>::from ](
    f: serde_json::Map<String, Value>,
) -> (r: Value)
    ensures
        json_view(r) == JsonView::Object(object_view(f)),
;

/// `From<Vec<T>>` for `serde_json::Value`, on a vector of values: the
/// array value with those elements in that order.
#[verifier::external_body]
pub(crate) fn array_value(items: Vec<Value>) -> (r: Value)
    ensures
        json_view(r) == JsonView::Array(array_view(items@)),
{
    serde_json::Value::from(items)
}

/// `serde_json::Value::get` with a string index: the member of an object
/// under that key, and `None` where the value is no object or has no such
/// member.
#[verifier::external_body]
pub(crate) fn member<'a>(value: &'a Value, key: &str) -> (r: Option<&'a Value>)
    ensures
        r is Some == json_view(*value).member(key@) is Some,
        r matches Some(found) ==> json_view(*value).member(key@) == Some(json_view(*found)),
{
    value.get(key)
}

/// `serde_json::from_str` at `serde_json::Value`: the document that the
/// text holds, a function of the text alone. `None` stands for its error,
/// which it reports for a text that is no single JSON document.
#[verifier::external_body]
pub(crate) fn parse_value(text: &str) -> (r: Option<Value>)
    ensures
        match r {
            Some(value) => json_parse(text@) == Some(json_view(value)),
            None => json_parse(text@) is None,
        },
{
    serde_json::from_str::<Value>(text).ok()
}

/// `to_string` of a `serde_json::Value`, through its `Display`: the compact
/// JSON text of the document, with the members of every object in the
/// order of their keys, a function of the document alone.
#[verifier::external_body]
pub(crate) fn value_text(value: &Value) -> (s: String)
    ensures
        s@ == json_text(json_view(*value)),
{
    value.to_string()
}

/// Reads the member under `key`, counting a `null` member as absent.
pub fn field<'a>(value: &'a Value, key: &str) -> (r: Option<&'a Value>)
    ensures
        r is Some == json_view(*value).field(key@) is Some,
        r matches Some(found) ==> json_view(*value).field(key@) == Some(json_view(*found)),
{
    match member(value, key) {
        Some(found) => if found.is_null() {
            None
        } else {
            Some(found)
        },
        None => None,
    }
}

/// Reads a required string member.
pub fn required_text(value: &Value, key: &str) -> (r: Option<String>)
    ensures
        r.deep_view() == json_view(*value).required_text(key@),
{
    match member(value, key) {
        Some(found) => match found.as_str() {
            Some(text) => Some(text.to_owned()),
            None => None,
        },
        None => None,
    }
}

/// Reads a required boolean member.
pub fn required_flag(value: &Value, key: &str) -> (r: Option<bool>)
    ensures
        r == json_view(*value).required_flag(key@),
{
    match member(value, key) {
        Some(found) => found.as_bool(),
        None => None,
    }
}

/// Reads an optional string member; the outer `None` reports a member of
/// another type.
pub fn optional_text(value: &Value, key: &str) -> (r: Option<Option<String>>)
    ensures
        r.deep_view() == json_view(*value).optional_text(key@),
{
    match field(value, key) {
        Some(found) => match found.as_str() {
            Some(text) => Some(Some(text.to_owned())),
            None => None,
        },
        None => Some(None),
    }
}

/// Reads an optional boolean member; the outer `None` reports a member of
/// another type.
pub fn optional_flag(value: &Value, key: &str) -> (r: Option<Option<bool>>)
    ensures
        r == json_view(*value).optional_flag(key@),
{
    match field(value, key) {
        Some(found) => match found.as_bool() {
            Some(flag) => Some(Some(flag)),
            None => None,
        },
        None => Some(None),
    }
}

/// Reads a required array member.
pub fn required_items<'a>(value: &'a Value, key: &str) -> (r: Option<&'a Vec<Value>>)
    ensures
        r is Some == json_view(*value).required_items(key@) is Some,
        r matches Some(items) ==> json_view(*value).required_items(key@) == Some(
            array_view(items@),
        ),
{
    match member(value, key) {
        Some(found) => found.as_array(),
        None => None,
    }
}

/// Reads a required object member.
pub fn required_members(value: &Value, key: &str) -> (r: Option<serde_json::Map<String, Value>>)
    ensures
        r is Some == json_view(*value).required_members(key@) is Some,
        r matches Some(members) ==> json_view(*value).required_members(key@) == Some(
            object_view(members),
        ),
{
    match member(value, key) {
        Some(found) => match found.as_object() {
            Some(members) => Some(members.clone()),
            None => None,
        },
        None => None,
    }
}

/// The members that an optional object holds.
pub open spec fn optional_object_view(
    members: Option<serde_json::Map<String, Value>>,
) -> Option<Map<Seq<char>, JsonView>> {
    match members {
        Some(m) => Some(object_view(m)),
        None => None,
    }
}

/// Reads an optional object member; the outer `None` reports a member of
/// another type.
pub fn optional_members(
    value: &Value,
    key: &str,
) -> (r: Option<Option<serde_json::Map<String, Value>>>)
    ensures
        r is Some == json_view(*value).optional_members(key@) is Some,
        r matches Some(members) ==> json_view(*value).optional_members(key@) == Some(
            optional_object_view(members),
        ),
{
    match field(value, key) {
        Some(found) => match found.as_object() {
            Some(members) => Some(Some(members.clone())),
            None => None,
        },
        None => Some(None),
    }
}

/// The members after an optional member has been written: a value is
/// stored under its key, no value leaves the members as they were.
pub open spec fn with_optional(
    members: Map<Seq<char>, JsonView>,
    key: Seq<char>,
    value: Option<JsonView>,
) -> Map<Seq<char>, JsonView> {
    match value {
        Some(json) => members.insert(key, json),
        None => members,
    }
}

/// The string document of an optional text.
pub open spec fn optional_string(text: Option<Seq<char>>) -> Option<JsonView> {
    match text {
        Some(t) => Some(JsonView::String(t)),
        None => None,
    }
}

/// The boolean document of an optional flag.
pub open spec fn optional_bool(flag: Option<bool>) -> Option<JsonView> {
    match flag {
        Some(b) => Some(JsonView::Bool(b)),
        None => None,
    }
}

/// Stores a document under `key`.
pub fn put(members: &mut serde_json::Map<String, Value>, key: &str, value: Value)
    ensures
        object_view(*final(members)) == object_view(*old(members)).insert(key@, json_view(value)),
{
    let _ = members.insert(key.to_owned(), value);
}

/// The members that an optional object holds, as a document.
pub open spec fn optional_object(members: Option<Map<Seq<char>, JsonView>>) -> Option<JsonView> {
    match members {
        Some(m) => Some(JsonView::Object(m)),
        None => None,
    }
}

/// Stores the members of an object under `key` where there are any, and
/// writes nothing where there are none.
pub fn put_optional_members(
    members: &mut serde_json::Map<String, Value>,
    key: &str,
    nested: &Option<serde_json::Map<String, Value>>,
)
    ensures
        object_view(*final(members)) == with_optional(
            object_view(*old(members)),
            key@,
            optional_object(optional_object_view(*nested)),
        ),
{
    match nested {
        Some(m) => put(members, key, Value::from(m.clone())),
        None => {},
    }
}

/// Stores a string under `key`.
pub fn put_text(members: &mut serde_json::Map<String, Value>, key: &str, text: &str)
    ensures
        object_view(*final(members)) == object_view(*old(members)).insert(
            key@,
            JsonView::String(text@),
        ),
{
    put(members, key, Value::from(text.to_owned()));
}

/// Stores a boolean under `key`.
pub fn put_flag(members: &mut serde_json::Map<String, Value>, key: &str, flag: bool)
    ensures
        object_view(*final(members)) == object_view(*old(members)).insert(
            key@,
            JsonView::Bool(flag),
        ),
{
    put(members, key, Value::from(flag));
}

/// Stores a string under `key` where there is one, and writes nothing
/// where there is none.
pub fn put_optional_text(
    members: &mut serde_json::Map<String, Value>,
    key: &str,
    text: &Option<String>,
)
    ensures
        object_view(*final(members)) == with_optional(
            object_view(*old(members)),
            key@,
            optional_string(text.deep_view()),
        ),
{
    match text {
        Some(t) => put_text(members, key, t.as_str()),
        None => {},
    }
}

/// Stores a boolean under `key` where there is one, and writes nothing
/// where there is none.
pub fn put_optional_flag(
    members: &mut serde_json::Map<String, Value>,
    key: &str,
    flag: Option<bool>,
)
    ensures
        object_view(*final(members)) == with_optional(
            object_view(*old(members)),
            key@,
            optional_bool(flag),
        ),
{
    match flag {
        Some(b) => put_flag(members, key, b),
        None => {},
    }
}

/// What a reader finds under a key does not depend on the members of
/// other names: readers ignore what they do not ask for.
pub proof fn lemma_readers_ignore_other_members(
    members: Map<Seq<char>, JsonView>,
    key: Seq<char>,
    other: Seq<char>,
    value: JsonView,
)
    requires
        key != other,
    ensures
        JsonView::Object(members.insert(other, value)).member(key) == JsonView::Object(
            members,
        ).member(key),
        JsonView::Object(members.insert(other, value)).field(key) == JsonView::Object(
            members,
        ).field(key),
        JsonView::Object(members.insert(other, value)).required_text(key) == JsonView::Object(
            members,
        ).required_text(key),
        JsonView::Object(members.insert(other, value)).required_flag(key) == JsonView::Object(
            members,
        ).required_flag(key),
        JsonView::Object(members.insert(other, value)).optional_text(key) == JsonView::Object(
            members,
        ).optional_text(key),
        JsonView::Object(members.insert(other, value)).optional_flag(key) == JsonView::Object(
            members,
        ).optional_flag(key),
        JsonView::Object(members.insert(other, value)).required_items(key) == JsonView::Object(
            members,
        ).required_items(key),
        JsonView::Object(members.insert(other, value)).required_members(key) == JsonView::Object(
            members,
        ).required_members(key),
        JsonView::Object(members.insert(other, value)).optional_members(key) == JsonView::Object(
            members,
        ).optional_members(key),
{
}

/// A member that is `null` reads as a member that is absent: both are no
/// value to the optional readers, and neither satisfies a required one.
pub proof fn lemma_null_reads_as_absent(members: Map<Seq<char>, JsonView>, key: Seq<char>)
    ensures
        JsonView::Object(members.insert(key, JsonView::Null)).field(key) is None,
        JsonView::Object(members.remove(key)).field(key) is None,
        JsonView::Object(members.insert(key, JsonView::Null)).optional_text(key) == Some(
            None::<Seq<char>>,
        ),
        JsonView::Object(members.remove(key)).optional_text(key) == Some(None::<Seq<char>>),
        JsonView::Object(members.insert(key, JsonView::Null)).optional_flag(key) == Some(
            None::<bool>,
        ),
        JsonView::Object(members.remove(key)).optional_flag(key) == Some(None::<bool>),
        JsonView::Object(members.insert(key, JsonView::Null)).required_text(key) is None,
        JsonView::Object(members.remove(key)).required_text(key) is None,
        JsonView::Object(members.insert(key, JsonView::Null)).required_flag(key) is None,
        JsonView::Object(members.remove(key)).required_flag(key) is None,
{
}

} // verus!

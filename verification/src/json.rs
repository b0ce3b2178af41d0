//! JSON values as the engine and the record store exchange them.
//!
//! The executable representation is `serde_json::Value`. Verus cannot look
//! inside it, so contracts speak of [`Json`], a mathematical model of a JSON
//! value, reached through [`json_model`]. The functions at the end of this
//! file are the only places where `serde_json` is called; each states in its
//! contract what it assumes of the call.

use serde_json::Value;
use vstd::prelude::*;

verus! {

#[verifier::external_type_specification]
#[verifier::external_body]
pub struct ExValue(serde_json::Value);

#[verifier::external_type_specification]
#[verifier::external_body]
#[verifier::reject_recursive_types(K)]
#[verifier::reject_recursive_types(V)]
pub struct ExObject<K, V>(serde_json::Map<K, V>);

#[verifier::external_type_specification]
#[verifier::external_body]
pub struct ExJsonError(serde_json::Error);

/// A JSON value as a mathematical object.
///
/// An object is a finite map from keys to values: `serde_json` is built here
/// without insertion-order tracking, so an object holds no more than that.
/// A number is either an integer or, where the text had a fraction or an
/// exponent, a binary64 floating-point number given by its bit pattern.
#[verifier::ext_equal]
pub enum Json {
    Null,
    Bool(bool),
    Int(int),
    Fraction(u64),
    Str(Seq<char>),
    Array(Seq<Json>),
    Object(Map<Seq<char>, Json>),
}

impl Json {
    /// The empty object `{}`.
    pub open spec fn empty_object() -> Json {
        Json::Object(Map::empty())
    }

    /// The value under `key`, if `self` is an object that has the key.
    pub open spec fn member(self, key: Seq<char>) -> Option<Json> {
        match self {
            Json::Object(m) => if m.contains_key(key) {
                Some(m[key])
            } else {
                None
            },
            _ => None,
        }
    }

    /// Whether `self` is an object that has `key`.
    pub open spec fn has(self, key: Seq<char>) -> bool {
        self.member(key) is Some
    }

    /// The characters of a string value.
    pub open spec fn text(self) -> Option<Seq<char>> {
        match self {
            Json::Str(s) => Some(s),
            _ => None,
        }
    }

    /// The truth value of a boolean value.
    pub open spec fn truth(self) -> Option<bool> {
        match self {
            Json::Bool(b) => Some(b),
            _ => None,
        }
    }

    /// The items of an array value.
    pub open spec fn items(self) -> Option<Seq<Json>> {
        match self {
            Json::Array(a) => Some(a),
            _ => None,
        }
    }

    /// Whether `self` may receive a member: it is an object, or `null`, which
    /// counts as an object without members.
    pub open spec fn accepts_members(self) -> bool {
        self is Object || self is Null
    }

    /// The members of `self`, where `null` has none.
    pub open spec fn members(self) -> Map<Seq<char>, Json> {
        match self {
            Json::Object(m) => m,
            _ => Map::empty(),
        }
    }

    /// `self` with `value` stored under `key`, replacing what was there.
    pub open spec fn with(self, key: Seq<char>, value: Json) -> Json {
        Json::Object(self.members().insert(key, value))
    }

    /// `self` with `value` stored under `key` if there is one.
    pub open spec fn with_optional(self, key: Seq<char>, value: Option<Json>) -> Json {
        match value {
            Some(v) => self.with(key, v),
            None => self,
        }
    }

    /// Whether a value carries nothing: `null`, `""`, `[]` or `{}`.
    pub open spec fn is_blank(self) -> bool {
        match self {
            Json::Null => true,
            Json::Str(s) => s.len() == 0,
            Json::Array(a) => a.len() == 0,
            Json::Object(m) => m.dom() =~= Set::empty(),
            _ => false,
        }
    }

    /// Whether `self` is an object in which `key` holds a value other than
    /// `null`.
    pub open spec fn present(self, key: Seq<char>) -> bool {
        match self.member(key) {
            Some(v) => !(v is Null),
            None => false,
        }
    }

    /// Whether `self` is an object in which `key` holds a value that is not
    /// blank.
    pub open spec fn has_content(self, key: Seq<char>) -> bool {
        match self.member(key) {
            Some(v) => !v.is_blank(),
            None => false,
        }
    }
}

/// The model of each item of a sequence of values.
pub open spec fn json_models(values: Seq<Value>) -> Seq<Json> {
    values.map_values(|v: Value| json_model(v))
}

/// What a `serde_json::Value` holds.
pub uninterp spec fn json_model(v: serde_json::Value) -> Json;

/// What the `serde_json::Map` of an object holds: its members by key.
pub uninterp spec fn object_members(m: serde_json::Map<String, Value>) -> Map<Seq<char>, Json>;

/// What `serde_json::from_str` makes of a text: the value it denotes, or
/// `None` where the text is not one JSON value.
pub uninterp spec fn parsed_json(text: Seq<char>) -> Option<Json>;

/// The text that `serde_json::to_string_pretty` writes for a value.
pub uninterp spec fn pretty_text(doc: Json) -> Seq<char>;

/// Calls `serde_json::from_str::<Value>`. The contract names the outcome
/// [`parsed_json`] of the text: parsing reads nothing but its argument.
#[verifier::external_body]
pub(crate) fn parse_text(text: &str) -> (r: Option<Value>)
    ensures
        r matches Some(v) ==> parsed_json(text@) == Some(json_model(v)),
        r is None ==> parsed_json(text@) is None,
{
    serde_json::from_str::<Value>(text).ok()
}

/// Calls `serde_json::to_string_pretty`. The call succeeds and the text is
/// [`pretty_text`] of the value. It succeeds because the serializer fails
/// only where its writer fails or a map key is no string: the writer here
/// is a `Vec<u8>`, the keys of a `Value` are strings, and `Value`'s own
/// `Serialize` adds no failure (a number that is not finite is written as
/// `null`).
#[verifier::external_body]
pub(crate) fn render_pretty(v: &Value) -> (r: Result<String, serde_json::Error>)
    ensures
        r is Ok,
        r matches Ok(s) ==> s@ == pretty_text(json_model(*v)),
{
    serde_json::to_string_pretty(v)
}

/// Calls `to_string` on a `serde_json::Error`: the error in words. Nothing is
/// claimed about the words.
#[verifier::external_body]
pub(crate) fn error_text(e: &serde_json::Error) -> (r: String) {
    e.to_string()
}

/// Calls `Value::get` with a string index: the member under `key` where the
/// value is an object that has it, `None` in every other case.
#[verifier::external_body]
pub(crate) fn get<'a>(v: &'a Value, key: &str) -> (r: Option<&'a Value>)
    ensures
        r matches Some(x) ==> json_model(*v).member(key@) == Some(json_model(*x)),
        r is None ==> json_model(*v).member(key@) is None,
{
    v.get(key)
}

/// Calls `Value::as_str`: the string's characters, `None` for any other
/// kind of value.
#[verifier::external_body]
pub(crate) fn as_str<'a>(v: &'a Value) -> (r: Option<&'a str>)
    ensures
        r matches Some(s) ==> json_model(*v).text() == Some(s@),
        r is None ==> json_model(*v).text() is None,
{
    v.as_str()
}

/// Calls `Value::as_bool`: the truth value, `None` for any other kind of
/// value.
#[verifier::external_body]
pub(crate) fn as_bool(v: &Value) -> (r: Option<bool>)
    ensures
        r == json_model(*v).truth(),
{
    v.as_bool()
}

/// Calls `Value::as_array`: the items in order, `None` for any other kind
/// of value.
#[verifier::external_body]
pub(crate) fn as_array<'a>(v: &'a Value) -> (r: Option<&'a Vec<Value>>)
    ensures
        r matches Some(a) ==> json_model(*v).items() == Some(json_models(a@)),
        r is None ==> json_model(*v).items() is None,
{
    v.as_array()
}

/// Calls `Value::is_null`.
#[verifier::external_body]
pub(crate) fn is_null(v: &Value) -> (r: bool)
    ensures
        r == (json_model(*v) is Null),
{
    v.is_null()
}

/// Calls `Value::as_object`: the members of an object, `None` for any other
/// kind of value.
#[verifier::external_body]
pub(crate) fn as_object<'a>(v: &'a Value) -> (r: Option<&'a serde_json::Map<String, Value>>)
    ensures
        r matches Some(m) ==> json_model(*v) == Json::Object(object_members(*m)),
        r is None ==> !(json_model(*v) is Object),
{
    v.as_object()
}

/// Copies the keys that `Map::keys` hands out. Every key of the object
/// occurs in the result and nothing else does.
#[verifier::external_body]
pub(crate) fn member_keys(m: &serde_json::Map<String, Value>) -> (r: Vec<String>)
    ensures
        forall|i: int| 0 <= i < r@.len() ==> object_members(*m).contains_key(#[trigger] r@[i]@),
        forall|k: Seq<char>|
            object_members(*m).contains_key(k) ==> exists|i: int|
                0 <= i < r@.len() && #[trigger] r@[i]@ == k,
{
    m.keys().cloned().collect()
}

/// Calls `Value::clone`: the copy holds what the value holds.
#[verifier::external_body]
pub(crate) fn clone_value(v: &Value) -> (r: Value)
    ensures
        json_model(r) == json_model(*v),
{
    v.clone()
}

/// Assigns through `Value`'s string index (`IndexMut`): on an object the
/// member is inserted or replaced, and `null` first becomes an empty
/// object. On any other value the index panics, which `requires` rules out.
#[verifier::external_body]
pub(crate) fn assign_member(target: &mut Value, key: &str, value: Value)
    requires
        json_model(*old(target)).accepts_members(),
    ensures
        json_model(*final(target)) == json_model(*old(target)).with(key@, json_model(value)),
{
    target[key] = value;
}

/// Builds `Value::Object` from `Map::new()`.
#[verifier::external_body]
pub(crate) fn empty_object() -> (r: Value)
    ensures
        json_model(r) == Json::empty_object(),
{
    Value::Object(serde_json::Map::new())
}

/// Builds `Value::String`.
#[verifier::external_body]
pub(crate) fn string_value(s: String) -> (r: Value)
    ensures
        json_model(r) == Json::Str(s@),
{
    Value::String(s)
}

/// Builds `Value::Bool`.
#[verifier::external_body]
pub(crate) fn bool_value(b: bool) -> (r: Value)
    ensures
        json_model(r) == Json::Bool(b),
{
    Value::Bool(b)
}

/// Calls `Value::from` on a `u64`: the number with that value.
#[verifier::external_body]
pub(crate) fn number_value(n: u64) -> (r: Value)
    ensures
        json_model(r) == Json::Int(n as int),
{
    Value::from(n)
}

/// Builds `Value::Array` from the items in order.
#[verifier::external_body]
pub(crate) fn array_value(items: Vec<Value>) -> (r: Value)
    ensures
        json_model(r) == Json::Array(json_models(items@)),
{
    Value::Array(items)
}

/// A string value holding the characters of `s`.
pub(crate) fn str_value(s: &str) -> (r: Value)
    ensures
        json_model(r) == Json::Str(s@),
{
    string_value(s.to_owned())
}

} // verus!

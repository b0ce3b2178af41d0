//! Writing typed fields into a JSON object.
//!
//! Each function stores one field under its key. An optional field that is
//! `None` leaves the object as it was, so the key is absent from the result.

use crate::json::{
    array_value, assign_member, bool_value, clone_value, empty_object, json_model, json_models,
    number_value, str_value, Json,
};
use crate::text::str_eq;
use serde_json::Value;
use vstd::prelude::*;

verus! {

/// The JSON string for an optional string.
pub open spec fn json_opt_str(o: Option<String>) -> Option<Json> {
    match o {
        Some(s) => Some(Json::Str(s@)),
        None => None,
    }
}

/// The JSON boolean for an optional flag.
pub open spec fn json_opt_bool(o: Option<bool>) -> Option<Json> {
    match o {
        Some(b) => Some(Json::Bool(b)),
        None => None,
    }
}

/// The JSON number for an optional `u8`.
pub open spec fn json_opt_u8(o: Option<u8>) -> Option<Json> {
    match o {
        Some(n) => Some(Json::Int(n as int)),
        None => None,
    }
}

/// The JSON number for an optional `u16`.
pub open spec fn json_opt_u16(o: Option<u16>) -> Option<Json> {
    match o {
        Some(n) => Some(Json::Int(n as int)),
        None => None,
    }
}

/// The JSON number for an optional `u32`.
pub open spec fn json_opt_u32(o: Option<u32>) -> Option<Json> {
    match o {
        Some(n) => Some(Json::Int(n as int)),
        None => None,
    }
}

/// The JSON number for an optional `u64`.
pub open spec fn json_opt_u64(o: Option<u64>) -> Option<Json> {
    match o {
        Some(n) => Some(Json::Int(n as int)),
        None => None,
    }
}

/// The JSON array of strings for a list of strings.
pub open spec fn json_strings(items: Seq<String>) -> Json {
    Json::Array(items.map_values(|s: String| Json::Str(s@)))
}

/// The JSON array for an optional list of strings.
pub open spec fn json_opt_strings(o: Option<Vec<String>>) -> Option<Json> {
    match o {
        Some(v) => Some(json_strings(v@)),
        None => None,
    }
}

/// The JSON object for a list of named strings; where a name occurs twice
/// the later entry stands.
pub open spec fn json_named_strings(entries: Seq<(String, String)>) -> Json
    decreases entries.len(),
{
    if entries.len() == 0 {
        Json::empty_object()
    } else {
        json_named_strings(entries.drop_last()).with(
            entries.last().0@,
            Json::Str(entries.last().1@),
        )
    }
}

/// The JSON object for an optional list of named strings.
pub open spec fn json_opt_named_strings(o: Option<Vec<(String, String)>>) -> Option<Json> {
    match o {
        Some(v) => Some(json_named_strings(v@)),
        None => None,
    }
}

/// The JSON object for a list of named string lists; where a name occurs
/// twice the later entry stands.
pub open spec fn json_named_lists(entries: Seq<(String, Vec<String>)>) -> Json
    decreases entries.len(),
{
    if entries.len() == 0 {
        Json::empty_object()
    } else {
        json_named_lists(entries.drop_last()).with(
            entries.last().0@,
            json_strings(entries.last().1@),
        )
    }
}

/// The JSON object for a list of named values; where a name occurs twice
/// the later entry stands.
pub open spec fn json_named_values(entries: Seq<(String, Value)>) -> Json
    decreases entries.len(),
{
    if entries.len() == 0 {
        Json::empty_object()
    } else {
        json_named_values(entries.drop_last()).with(
            entries.last().0@,
            json_model(entries.last().1),
        )
    }
}

/// The JSON object for an optional list of named values.
pub open spec fn json_opt_named_values(o: Option<Vec<(String, Value)>>) -> Option<Json> {
    match o {
        Some(v) => Some(json_named_values(v@)),
        None => None,
    }
}

/// A settings type that has a JSON form.
pub trait ToJson {
    /// The JSON form of the value.
    spec fn json(&self) -> Json;

    /// Builds the JSON form of the value.
    fn to_json_value(&self) -> (v: Value)
        ensures
            json_model(v) == self.json(),
    ;
}

/// The JSON array for a list of settings values.
pub open spec fn json_list<T: ToJson>(items: Seq<T>) -> Json {
    Json::Array(items.map_values(|x: T| x.json()))
}

/// The JSON array for an optional list of settings values.
pub open spec fn json_opt_list<T: ToJson>(o: Option<Vec<T>>) -> Option<Json> {
    match o {
        Some(v) => Some(json_list(v@)),
        None => None,
    }
}

/// The JSON form of an optional settings value.
pub open spec fn json_opt<T: ToJson>(o: Option<T>) -> Option<Json> {
    match o {
        Some(x) => Some(x.json()),
        None => None,
    }
}

/// Whether no name occurs twice among the entries. A table of named
/// entries is meant to hold each name once.
pub open spec fn names_distinct<T>(entries: Seq<(String, T)>) -> bool {
    forall|i: int, j: int|
        0 <= i < j < entries.len() ==> (#[trigger] entries[i]).0@ != (#[trigger] entries[j]).0@
}

/// Whether no name occurs twice among the entries of an optional table.
pub open spec fn opt_names_distinct<T>(entries: Option<Vec<(String, T)>>) -> bool {
    match entries {
        Some(v) => names_distinct(v@),
        None => true,
    }
}

/// Checks [`names_distinct`].
pub fn has_distinct_names<T>(entries: &Vec<(String, T)>) -> (distinct: bool)
    ensures
        distinct == names_distinct(entries@),
{
    let mut j: usize = 0;
    while j < entries.len()
        invariant
            j <= entries@.len(),
            forall|a: int, b: int|
                0 <= a < b < j ==> (#[trigger] entries@[a]).0@ != (#[trigger] entries@[b]).0@,
        decreases entries@.len() - j,
    {
        let mut i: usize = 0;
        while i < j
            invariant
                i <= j < entries@.len(),
                forall|a: int| 0 <= a < i ==> (#[trigger] entries@[a]).0@ != entries@[j as int].0@,
            decreases j - i,
        {
            if str_eq(entries[i].0.as_str(), entries[j].0.as_str()) {
                return false;
            }
            i += 1;
        }
        j += 1;
    }
    true
}

/// Checks [`opt_names_distinct`].
pub fn has_distinct_names_opt<T>(entries: &Option<Vec<(String, T)>>) -> (distinct: bool)
    ensures
        distinct == opt_names_distinct(*entries),
{
    match entries {
        Some(v) => has_distinct_names(v),
        None => true,
    }
}

/// In a table that holds each name once, every entry is found under its
/// name in the JSON object.
pub proof fn lemma_named_strings_lookup(entries: Seq<(String, String)>, i: int)
    requires
        names_distinct(entries),
        0 <= i < entries.len(),
    ensures
        json_named_strings(entries).member(entries[i].0@) == Some(Json::Str(entries[i].1@)),
    decreases entries.len(),
{
    if i < entries.len() - 1 {
        assert(names_distinct(entries.drop_last())) by {
            assert forall|a: int, b: int| 0 <= a < b < entries.drop_last().len() implies (
            #[trigger] entries.drop_last()[a]).0@ != (#[trigger] entries.drop_last()[b]).0@ by {
                assert(entries[a].0@ != entries[b].0@);
            }
        }
        lemma_named_strings_lookup(entries.drop_last(), i);
        assert(entries[i].0@ != entries.last().0@);
    }
}

/// In a table that holds each name once, every list is found under its name
/// in the JSON object.
pub proof fn lemma_named_lists_lookup(entries: Seq<(String, Vec<String>)>, i: int)
    requires
        names_distinct(entries),
        0 <= i < entries.len(),
    ensures
        json_named_lists(entries).member(entries[i].0@) == Some(json_strings(entries[i].1@)),
    decreases entries.len(),
{
    if i < entries.len() - 1 {
        assert(names_distinct(entries.drop_last())) by {
            assert forall|a: int, b: int| 0 <= a < b < entries.drop_last().len() implies (
            #[trigger] entries.drop_last()[a]).0@ != (#[trigger] entries.drop_last()[b]).0@ by {
                assert(entries[a].0@ != entries[b].0@);
            }
        }
        lemma_named_lists_lookup(entries.drop_last(), i);
        assert(entries[i].0@ != entries.last().0@);
    }
}

/// Stores `value` under `key`.
pub(crate) fn put(target: &mut Value, key: &str, value: Value)
    requires
        json_model(*old(target)).accepts_members(),
    ensures
        json_model(*final(target)) == json_model(*old(target)).with(key@, json_model(value)),
        json_model(*final(target)).accepts_members(),
{
    assign_member(target, key, value);
}

/// Stores `value` under `key` if there is one.
pub(crate) fn put_opt(target: &mut Value, key: &str, value: Option<Value>)
    requires
        json_model(*old(target)).accepts_members(),
    ensures
        json_model(*final(target)) == json_model(*old(target)).with_optional(
            key@,
            match value {
                Some(v) => Some(json_model(v)),
                None => None,
            },
        ),
        json_model(*final(target)).accepts_members(),
{
    match value {
        Some(v) => assign_member(target, key, v),
        None => {},
    }
}

/// Stores a string under `key`.
pub(crate) fn put_str(target: &mut Value, key: &str, s: &str)
    requires
        json_model(*old(target)).accepts_members(),
    ensures
        json_model(*final(target)) == json_model(*old(target)).with(key@, Json::Str(s@)),
        json_model(*final(target)).accepts_members(),
{
    assign_member(target, key, str_value(s));
}

/// Stores a flag under `key`.
pub(crate) fn put_bool(target: &mut Value, key: &str, b: bool)
    requires
        json_model(*old(target)).accepts_members(),
    ensures
        json_model(*final(target)) == json_model(*old(target)).with(key@, Json::Bool(b)),
        json_model(*final(target)).accepts_members(),
{
    assign_member(target, key, bool_value(b));
}

/// Stores a number under `key`.
pub(crate) fn put_number(target: &mut Value, key: &str, n: u64)
    requires
        json_model(*old(target)).accepts_members(),
    ensures
        json_model(*final(target)) == json_model(*old(target)).with(key@, Json::Int(n as int)),
        json_model(*final(target)).accepts_members(),
{
    assign_member(target, key, number_value(n));
}

/// Stores an optional string under `key`.
pub(crate) fn put_opt_str(target: &mut Value, key: &str, s: &Option<String>)
    requires
        json_model(*old(target)).accepts_members(),
    ensures
        json_model(*final(target)) == json_model(*old(target)).with_optional(
            key@,
            json_opt_str(*s),
        ),
        json_model(*final(target)).accepts_members(),
{
    match s {
        Some(x) => assign_member(target, key, str_value(x.as_str())),
        None => {},
    }
}

/// Stores an optional flag under `key`.
pub(crate) fn put_opt_bool(target: &mut Value, key: &str, b: Option<bool>)
    requires
        json_model(*old(target)).accepts_members(),
    ensures
        json_model(*final(target)) == json_model(*old(target)).with_optional(
            key@,
            json_opt_bool(b),
        ),
        json_model(*final(target)).accepts_members(),
{
    match b {
        Some(x) => assign_member(target, key, bool_value(x)),
        None => {},
    }
}

/// Stores an optional `u8` under `key`.
pub(crate) fn put_opt_u8(target: &mut Value, key: &str, n: Option<u8>)
    requires
        json_model(*old(target)).accepts_members(),
    ensures
        json_model(*final(target)) == json_model(*old(target)).with_optional(key@, json_opt_u8(n)),
        json_model(*final(target)).accepts_members(),
{
    match n {
        Some(x) => assign_member(target, key, number_value(x as u64)),
        None => {},
    }
}

/// Stores an optional `u16` under `key`.
pub(crate) fn put_opt_u16(target: &mut Value, key: &str, n: Option<u16>)
    requires
        json_model(*old(target)).accepts_members(),
    ensures
        json_model(*final(target)) == json_model(*old(target)).with_optional(
            key@,
            json_opt_u16(n),
        ),
        json_model(*final(target)).accepts_members(),
{
    match n {
        Some(x) => assign_member(target, key, number_value(x as u64)),
        None => {},
    }
}

/// Stores an optional `u32` under `key`.
pub(crate) fn put_opt_u32(target: &mut Value, key: &str, n: Option<u32>)
    requires
        json_model(*old(target)).accepts_members(),
    ensures
        json_model(*final(target)) == json_model(*old(target)).with_optional(
            key@,
            json_opt_u32(n),
        ),
        json_model(*final(target)).accepts_members(),
{
    match n {
        Some(x) => assign_member(target, key, number_value(x as u64)),
        None => {},
    }
}

/// Stores an optional `u64` under `key`.
pub(crate) fn put_opt_u64(target: &mut Value, key: &str, n: Option<u64>)
    requires
        json_model(*old(target)).accepts_members(),
    ensures
        json_model(*final(target)) == json_model(*old(target)).with_optional(
            key@,
            json_opt_u64(n),
        ),
        json_model(*final(target)).accepts_members(),
{
    match n {
        Some(x) => assign_member(target, key, number_value(x)),
        None => {},
    }
}

/// The JSON array of strings for a list of strings.
pub fn strings_value(items: &Vec<String>) -> (v: Value)
    ensures
        json_model(v) == json_strings(items@),
{
    let mut out: Vec<Value> = Vec::new();
    let mut i: usize = 0;
    while i < items.len()
        invariant
            i <= items@.len(),
            out@.len() == i,
            forall|j: int| 0 <= j < i ==> json_model(#[trigger] out@[j]) == Json::Str(items@[j]@),
        decreases items@.len() - i,
    {
        out.push(str_value(items[i].as_str()));
        i += 1;
    }
    assert(json_models(out@) =~= items@.map_values(|s: String| Json::Str(s@)));
    array_value(out)
}

/// Stores an optional list of strings under `key`.
pub(crate) fn put_opt_strings(target: &mut Value, key: &str, items: &Option<Vec<String>>)
    requires
        json_model(*old(target)).accepts_members(),
    ensures
        json_model(*final(target)) == json_model(*old(target)).with_optional(
            key@,
            json_opt_strings(*items),
        ),
        json_model(*final(target)).accepts_members(),
{
    match items {
        Some(v) => assign_member(target, key, strings_value(v)),
        None => {},
    }
}

/// The JSON array for a list of settings values, in order.
pub fn list_value<T: ToJson>(items: &Vec<T>) -> (v: Value)
    ensures
        json_model(v) == json_list(items@),
{
    let mut out: Vec<Value> = Vec::new();
    let mut i: usize = 0;
    while i < items.len()
        invariant
            i <= items@.len(),
            out@.len() == i,
            forall|j: int| 0 <= j < i ==> json_model(#[trigger] out@[j]) == items@[j].json(),
        decreases items@.len() - i,
    {
        out.push(items[i].to_json_value());
        i += 1;
    }
    assert(json_models(out@) =~= items@.map_values(|x: T| x.json()));
    array_value(out)
}

/// Stores an optional list of settings values under `key`.
pub(crate) fn put_opt_list<T: ToJson>(target: &mut Value, key: &str, items: &Option<Vec<T>>)
    requires
        json_model(*old(target)).accepts_members(),
    ensures
        json_model(*final(target)) == json_model(*old(target)).with_optional(
            key@,
            json_opt_list(*items),
        ),
        json_model(*final(target)).accepts_members(),
{
    match items {
        Some(v) => assign_member(target, key, list_value(v)),
        None => {},
    }
}

/// Stores an optional settings value under `key`.
pub(crate) fn put_opt_json<T: ToJson>(target: &mut Value, key: &str, item: &Option<T>)
    requires
        json_model(*old(target)).accepts_members(),
    ensures
        json_model(*final(target)) == json_model(*old(target)).with_optional(key@, json_opt(*item)),
        json_model(*final(target)).accepts_members(),
{
    match item {
        Some(x) => assign_member(target, key, x.to_json_value()),
        None => {},
    }
}

/// The JSON object for a list of named strings.
pub fn named_strings_value(entries: &Vec<(String, String)>) -> (v: Value)
    ensures
        json_model(v) == json_named_strings(entries@),
{
    let mut out = empty_object();
    let mut i: usize = 0;
    while i < entries.len()
        invariant
            i <= entries@.len(),
            json_model(out) == json_named_strings(entries@.subrange(0, i as int)),
        decreases entries@.len() - i,
    {
        assert(entries@.subrange(0, i + 1).drop_last() =~= entries@.subrange(0, i as int));
        assign_member(&mut out, entries[i].0.as_str(), str_value(entries[i].1.as_str()));
        i += 1;
    }
    assert(entries@.subrange(0, i as int) =~= entries@);
    out
}

/// Stores an optional list of named strings under `key`.
pub(crate) fn put_opt_named_strings(
    target: &mut Value,
    key: &str,
    entries: &Option<Vec<(String, String)>>,
)
    requires
        json_model(*old(target)).accepts_members(),
    ensures
        json_model(*final(target)) == json_model(*old(target)).with_optional(
            key@,
            json_opt_named_strings(*entries),
        ),
        json_model(*final(target)).accepts_members(),
{
    match entries {
        Some(v) => assign_member(target, key, named_strings_value(v)),
        None => {},
    }
}

/// The JSON object for a list of named values.
pub fn named_values_value(entries: &Vec<(String, Value)>) -> (v: Value)
    ensures
        json_model(v) == json_named_values(entries@),
{
    let mut out = empty_object();
    let mut i: usize = 0;
    while i < entries.len()
        invariant
            i <= entries@.len(),
            json_model(out) == json_named_values(entries@.subrange(0, i as int)),
        decreases entries@.len() - i,
    {
        assert(entries@.subrange(0, i + 1).drop_last() =~= entries@.subrange(0, i as int));
        assign_member(&mut out, entries[i].0.as_str(), clone_value(&entries[i].1));
        i += 1;
    }
    assert(entries@.subrange(0, i as int) =~= entries@);
    out
}

/// Stores an optional list of named values under `key`.
pub(crate) fn put_opt_named_values(
    target: &mut Value,
    key: &str,
    entries: &Option<Vec<(String, Value)>>,
)
    requires
        json_model(*old(target)).accepts_members(),
    ensures
        json_model(*final(target)) == json_model(*old(target)).with_optional(
            key@,
            json_opt_named_values(*entries),
        ),
        json_model(*final(target)).accepts_members(),
{
    match entries {
        Some(v) => assign_member(target, key, named_values_value(v)),
        None => {},
    }
}

/// The JSON object for a list of named string lists.
pub fn named_lists_value(entries: &Vec<(String, Vec<String>)>) -> (v: Value)
    ensures
        json_model(v) == json_named_lists(entries@),
{
    let mut out = empty_object();
    let mut i: usize = 0;
    while i < entries.len()
        invariant
            i <= entries@.len(),
            json_model(out) == json_named_lists(entries@.subrange(0, i as int)),
        decreases entries@.len() - i,
    {
        assert(entries@.subrange(0, i + 1).drop_last() =~= entries@.subrange(0, i as int));
        assign_member(&mut out, entries[i].0.as_str(), strings_value(&entries[i].1));
        i += 1;
    }
    assert(entries@.subrange(0, i as int) =~= entries@);
    out
}

} // verus!

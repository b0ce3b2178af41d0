//! Questions about a JSON value that the validation rules ask.

use crate::json::{
    as_array, as_object, as_str, get, is_null, json_model, member_keys, object_members, Json,
};
use serde_json::Value;
use vstd::prelude::*;

verus! {

/// Whether a value carries nothing: `null`, `""`, `[]` or `{}`.
pub fn is_blank(v: &Value) -> (blank: bool)
    ensures
        blank == json_model(*v).is_blank(),
{
    if is_null(v) {
        return true;
    }
    match as_str(v) {
        Some(s) => {
            return s.is_empty();
        },
        None => {},
    }
    match as_array(v) {
        Some(items) => {
            return items.len() == 0;
        },
        None => {},
    }
    match as_object(v) {
        Some(members) => {
            let keys = member_keys(members);
            proof {
                let m = object_members(*members);
                if keys@.len() == 0 {
                    assert(m.dom() =~= Set::empty());
                } else {
                    assert(m.dom().contains(keys@[0]@));
                }
            }
            keys.len() == 0
        },
        None => false,
    }
}

/// Whether `v` is an object.
pub fn is_object(v: &Value) -> (object: bool)
    ensures
        object == (json_model(*v) is Object),
{
    as_object(v).is_some()
}

/// The keys of an object; a value that is no object has none.
pub fn object_keys(v: &Value) -> (keys: Vec<String>)
    ensures
        forall|i: int| 0 <= i < keys@.len() ==> json_model(*v).has(#[trigger] keys@[i]@),
        forall|k: Seq<char>|
            json_model(*v).has(k) ==> exists|i: int|
                0 <= i < keys@.len() && #[trigger] keys@[i]@ == k,
{
    match as_object(v) {
        Some(members) => member_keys(members),
        None => Vec::new(),
    }
}

/// Whether `v` is an object in which `key` holds a value.
pub fn has(v: &Value, key: &str) -> (found: bool)
    ensures
        found == json_model(*v).has(key@),
{
    get(v, key).is_some()
}

/// Whether `v` is an object in which `key` holds a value other than `null`.
pub fn is_present(v: &Value, key: &str) -> (found: bool)
    ensures
        found == json_model(*v).present(key@),
{
    match get(v, key) {
        Some(x) => !is_null(x),
        None => false,
    }
}

/// Whether `v` is an object in which `key` holds a value that is not blank.
pub fn has_content(v: &Value, key: &str) -> (found: bool)
    ensures
        found == json_model(*v).has_content(key@),
{
    match get(v, key) {
        Some(x) => !is_blank(x),
        None => false,
    }
}

} // verus!

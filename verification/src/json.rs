//! A plain JSON tree, and the trusted bridge that fills it from `serde_json`.
//!
//! The decoder works on [`JsonValue`], a tree of owned plain values, so that
//! everything past the parse itself is verified.  Parsing the input text is
//! the one trusted step: [`parse_json`] names its result [`json_of`], a pure
//! function of the text alone.

use vstd::prelude::*;

verus! {

/// One JSON value as a tree of plain values.  A number is carried as its
/// decimal rendering: the introspection decoder never reads numbers, it only
/// has to carry them through unknown fields.
pub enum JsonValue {
    Null,
    Bool(bool),
    Num(String),
    Str(String),
    Arr(Vec<JsonValue>),
    Obj(Vec<(String, JsonValue)>),
}

/// Size of a JSON tree, used as the decreases measure where recursion walks
/// through an object lookup rather than down a direct field.
pub open spec fn jsize(j: JsonValue) -> nat
    decreases j, 0int,
{
    match j {
        JsonValue::Null => 1,
        JsonValue::Bool(_) => 1,
        JsonValue::Num(_) => 1,
        JsonValue::Str(_) => 1,
        JsonValue::Arr(items) => 1 + jsize_arr(items, 0),
        JsonValue::Obj(fields) => 1 + jsize_obj(fields, 0),
    }
}

pub open spec fn jsize_arr(items: Vec<JsonValue>, i: int) -> nat
    decreases items, items@.len() - i,
{
    if i < 0 || i >= items@.len() {
        0
    } else {
        jsize(items[i]) + jsize_arr(items, i + 1)
    }
}

pub open spec fn jsize_obj(fields: Vec<(String, JsonValue)>, i: int) -> nat
    decreases fields, fields@.len() - i,
{
    if i < 0 || i >= fields@.len() {
        0
    } else {
        {
            proof {
                assert(decreases_to!(fields => fields[i]));
            }
            jsize(fields[i].1) + jsize_obj(fields, i + 1)
        }
    }
}

/// The first binding of `key` in an object's field list, if any.
pub open spec fn jfield(fields: Seq<(String, JsonValue)>, key: Seq<char>) -> Option<JsonValue>
    decreases fields.len(),
{
    if fields.len() == 0 {
        Option::None
    } else if fields[0].0@ == key {
        Option::Some(fields[0].1)
    } else {
        jfield(fields.subrange(1, fields.len() as int), key)
    }
}

/// Member lookup: `None` on anything that is not an object holding the key.
pub open spec fn jlookup(j: JsonValue, key: Seq<char>) -> Option<JsonValue> {
    match j {
        JsonValue::Obj(fields) => jfield(fields@, key),
        _ => Option::None,
    }
}

pub proof fn lemma_jfield_size(fields: Vec<(String, JsonValue)>, key: Seq<char>, i: int)
    requires
        0 <= i <= fields@.len(),
    ensures
        jfield(fields@.subrange(i, fields@.len() as int), key) matches Option::Some(v)
            ==> jsize(v) <= jsize_obj(fields, i),
    decreases fields@.len() - i,
{
    let tail = fields@.subrange(i, fields@.len() as int);
    if tail.len() > 0 {
        if tail[0].0@ == key {
            assert(tail[0] == fields[i]);
        } else {
            lemma_jfield_size(fields, key, i + 1);
            assert(tail.subrange(1, tail.len() as int) =~= fields@.subrange(
                i + 1,
                fields@.len() as int,
            ));
        }
    }
}

/// A value found by lookup is strictly smaller than the object it came from.
pub proof fn lemma_jlookup_size(j: JsonValue, key: Seq<char>)
    ensures
        jlookup(j, key) matches Option::Some(v) ==> jsize(v) < jsize(j),
{
    match j {
        JsonValue::Obj(fields) => {
            lemma_jfield_size(fields, key, 0);
            assert(fields@.subrange(0, fields@.len() as int) =~= fields@);
        },
        _ => {},
    }
}

/// What `serde_json` parses the given text into, mapped onto [`JsonValue`]:
/// `None` when the text is not a JSON document.  Parsing is a function of the
/// text alone, so the result has a name rather than a transcription.
pub uninterp spec fn json_of(text: Seq<char>) -> Option<JsonValue>;

#[verifier::external_type_specification]
#[verifier::external_body]
pub struct ExValue(serde_json::Value);

/// Relies on `serde_json::Value`: each variant of the parsed tree is moved
/// into the matching [`JsonValue`] variant, with object entries kept in the
/// order `serde_json`'s map iterates them and numbers carried as their
/// `Display` rendering.
#[verifier::external_body]
fn from_value(v: &serde_json::Value) -> JsonValue {
    match v {
        serde_json::Value::Null => JsonValue::Null,
        serde_json::Value::Bool(b) => JsonValue::Bool(*b),
        serde_json::Value::Number(n) => JsonValue::Num(n.to_string()),
        serde_json::Value::String(s) => JsonValue::Str(s.clone()),
        serde_json::Value::Array(items) => JsonValue::Arr(items.iter().map(from_value).collect()),
        serde_json::Value::Object(fields) => JsonValue::Obj(
            fields.iter().map(|(k, x)| (k.clone(), from_value(x))).collect(),
        ),
    }
}

/// Relies on `serde_json::from_str::<serde_json::Value>`: it parses the text
/// into a JSON value exactly when the text is a JSON document, and the value
/// depends on the text alone.  The parsed tree, carried over by
/// [`from_value`], is the one [`json_of`] names.
#[verifier::external_body]
pub fn parse_json(text: &str) -> (r: Option<JsonValue>)
    ensures
        r == json_of(text@),
{
    match serde_json::from_str::<serde_json::Value>(text) {
        Ok(v) => Some(from_value(&v)),
        Err(_) => None,
    }
}

/// Relies on `str`'s `PartialEq`: string slices compare equal exactly when
/// their character sequences do.
#[verifier::external_body]
pub fn str_eq(a: &str, b: &str) -> (r: bool)
    ensures
        r == (a@ == b@),
{
    a == b
}

} // verus!

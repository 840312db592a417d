//! A model of parsed JSON as plain values.
//!
//! serde_json does the parsing; its result is converted, variant by variant,
//! into [`JsonVal`], a tree the verifier can see through. The parse itself is
//! a function of the body's characters alone and carries the name
//! [`spec_json_parse`]; every decision taken on a parsed body is verified
//! code over this model, with exact contracts.

use vstd::prelude::*;
use vstd::string::StrSliceExecFns;

verus! {

/// A parsed JSON document. Numbers carry the integer readings serde_json
/// gives them (`as_i64` / `as_u64`); a number representable as neither — a
/// fraction — carries none, and no operation of this client reads one.
#[derive(Debug, PartialEq, Eq)]
pub enum JsonVal {
    Null,
    Bool(bool),
    Num { as_int: Option<i64>, as_uint: Option<u64> },
    Str(String),
    Arr(Vec<JsonVal>),
    Obj(Vec<(String, JsonVal)>),
}

/// What parsing a body comes to: the model of serde_json's parse, a function
/// of the characters alone; absent when the text is not JSON.
pub uninterp spec fn spec_json_parse(s: Seq<char>) -> Option<JsonVal>;

#[verifier::external_type_specification]
#[verifier::external_body]
pub struct ExJsonValue(serde_json::Value);

/// Relies on `serde_json::Value`: converts a parsed tree into the model,
/// one arm per variant, fields moved or re-read through `Number::as_i64` /
/// `Number::as_u64`.
#[verifier::external_body]
fn model_of(v: &serde_json::Value) -> JsonVal {
    match v {
        serde_json::Value::Null => JsonVal::Null,
        serde_json::Value::Bool(b) => JsonVal::Bool(*b),
        serde_json::Value::Number(n) => JsonVal::Num { as_int: n.as_i64(), as_uint: n.as_u64() },
        serde_json::Value::String(s) => JsonVal::Str(s.clone()),
        serde_json::Value::Array(a) => JsonVal::Arr(a.iter().map(model_of).collect()),
        serde_json::Value::Object(m) => JsonVal::Obj(
            m.iter().map(|(k, x)| (k.clone(), model_of(x))).collect(),
        ),
    }
}

/// Relies on `serde_json::from_str`: parses JSON text, yielding the model of
/// the parse — `spec_json_parse` of exactly the given characters — or
/// nothing when the text is rejected.
#[verifier::external_body]
pub fn parse_body(s: &str) -> (r: Option<JsonVal>)
    ensures
        r == spec_json_parse(s@),
{
    match serde_json::from_str::<serde_json::Value>(s) {
        Ok(v) => Some(model_of(&v)),
        Err(_) => None,
    }
}

/// Character-for-character string equality.
pub fn str_eq(a: &str, b: &str) -> (r: bool)
    ensures
        r == (a@ == b@),
{
    let n = a.unicode_len();
    if n != b.unicode_len() {
        return false;
    }
    let mut i: usize = 0;
    while i < n
        invariant
            i <= n,
            n == a@.len(),
            n == b@.len(),
            forall|j: int| 0 <= j < i ==> a@[j] == b@[j],
        decreases n - i,
    {
        if a.get_char(i) != b.get_char(i) {
            return false;
        }
        i += 1;
    }
    proof {
        assert(a@ =~= b@);
    }
    true
}

/// The value under `key` in an object's field list: the first binding whose
/// key matches.
pub open spec fn spec_obj_get(fields: Seq<(String, JsonVal)>, key: Seq<char>) -> Option<JsonVal>
    decreases fields.len(),
{
    if fields.len() == 0 {
        None
    } else if fields[0].0@ == key {
        Some(fields[0].1)
    } else {
        spec_obj_get(fields.skip(1), key)
    }
}

fn obj_get<'a>(fields: &'a Vec<(String, JsonVal)>, key: &str) -> (r: Option<&'a JsonVal>)
    ensures
        match r {
            Some(v) => spec_obj_get(fields@, key@) == Some(*v),
            None => spec_obj_get(fields@, key@) is None,
        },
{
    let n = fields.len();
    let mut i: usize = 0;
    proof {
        assert(fields@.skip(0) =~= fields@);
    }
    while i < n
        invariant
            i <= n,
            n == fields@.len(),
            spec_obj_get(fields@, key@) == spec_obj_get(fields@.skip(i as int), key@),
        decreases n - i,
    {
        proof {
            assert(fields@.skip(i as int)[0] == fields@[i as int]);
        }
        if str_eq(fields[i].0.as_str(), key) {
            return Some(&fields[i].1);
        }
        proof {
            assert(fields@.skip(i as int).skip(1) =~= fields@.skip(i + 1));
        }
        i += 1;
    }
    proof {
        assert(fields@.skip(n as int) =~= Seq::<(String, JsonVal)>::empty());
    }
    None
}

/// The value of a key in a JSON object; absent on a missing key or a
/// non-object.
pub open spec fn spec_field(v: JsonVal, key: Seq<char>) -> Option<JsonVal> {
    match v {
        JsonVal::Obj(fields) => spec_obj_get(fields@, key),
        _ => None,
    }
}

/// Executable form of [`spec_field`].
pub fn get_field<'a>(v: &'a JsonVal, key: &str) -> (r: Option<&'a JsonVal>)
    ensures
        match r {
            Some(f) => spec_field(*v, key@) == Some(*f),
            None => spec_field(*v, key@) is None,
        },
{
    match v {
        JsonVal::Obj(fields) => obj_get(fields, key),
        _ => None,
    }
}

/// A string-valued field of a JSON object.
pub open spec fn spec_str_field(v: JsonVal, key: Seq<char>) -> Option<String> {
    match spec_field(v, key) {
        Some(JsonVal::Str(s)) => Some(s),
        _ => None,
    }
}

/// Executable form of [`spec_str_field`].
pub fn str_field(v: &JsonVal, key: &str) -> (r: Option<String>)
    ensures
        r == spec_str_field(*v, key@),
{
    match get_field(v, key) {
        Some(JsonVal::Str(s)) => Some(s.clone()),
        _ => None,
    }
}

/// A boolean field of a JSON object.
pub open spec fn spec_bool_field(v: JsonVal, key: Seq<char>) -> Option<bool> {
    match spec_field(v, key) {
        Some(JsonVal::Bool(b)) => Some(b),
        _ => None,
    }
}

/// Executable form of [`spec_bool_field`].
pub fn bool_field(v: &JsonVal, key: &str) -> (r: Option<bool>)
    ensures
        r == spec_bool_field(*v, key@),
{
    match get_field(v, key) {
        Some(JsonVal::Bool(b)) => Some(*b),
        _ => None,
    }
}

/// An unsigned integer field of a JSON object, bounded by `max`.
pub open spec fn spec_uint_field(v: JsonVal, key: Seq<char>, max: u64) -> Option<u64> {
    match spec_field(v, key) {
        Some(JsonVal::Num { as_uint: Some(n), .. }) => if n <= max {
            Some(n)
        } else {
            None
        },
        _ => None,
    }
}

/// Executable form of [`spec_uint_field`].
pub fn uint_field(v: &JsonVal, key: &str, max: u64) -> (r: Option<u64>)
    ensures
        r == spec_uint_field(*v, key@, max),
{
    match get_field(v, key) {
        Some(JsonVal::Num { as_uint: Some(n), .. }) => if *n <= max {
            Some(*n)
        } else {
            None
        },
        _ => None,
    }
}

/// A signed integer field of a JSON object.
pub open spec fn spec_int_field(v: JsonVal, key: Seq<char>) -> Option<i64> {
    match spec_field(v, key) {
        Some(JsonVal::Num { as_int: Some(n), .. }) => Some(n),
        _ => None,
    }
}

/// Executable form of [`spec_int_field`].
pub fn int_field(v: &JsonVal, key: &str) -> (r: Option<i64>)
    ensures
        r == spec_int_field(*v, key@),
{
    match get_field(v, key) {
        Some(JsonVal::Num { as_int: Some(n), .. }) => Some(*n),
        _ => None,
    }
}

} // verus!

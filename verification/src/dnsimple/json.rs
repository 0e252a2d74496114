//! A JSON document modelled with plain values, the trusted parse through
//! `serde_json`, and verified field accessors used by every decoder.

use vstd::prelude::*;

use crate::dnsimple::text;
use serde_json::Value as RawJson;

verus! {

/// A JSON value. Numbers are held as `u64`: every numeric field of the
/// API is a non-negative integer, and a document with any other number
/// is rejected by the parse below.
pub enum JsonValue {
    Null,
    Bool(bool),
    UInt(u64),
    Str(String),
    Arr(Vec<JsonValue>),
    Obj(Vec<(String, JsonValue)>),
}

/// What `serde_json` parses a given text into, under the model above:
/// `None` where the text is not a JSON document, or holds a number that
/// is not a `u64`. The result depends on the text alone.
pub uninterp spec fn json_of(s: Seq<char>) -> Option<JsonValue>;

/// Relies on `serde_json::from_str::<serde_json::Value>`: parses one JSON
/// document, deterministically. Object fields arrive sorted by key with
/// duplicates collapsed (serde_json's map), and nested values are carried
/// over by re-rendering each with serde_json's own `to_string` and
/// parsing again, which preserves them exactly.
#[verifier::external_body]
pub(crate) fn parse_json(s: &str) -> (r: Option<JsonValue>)
    ensures
        r == json_of(s@),
{
    let v = serde_json::from_str::<RawJson>(s).ok()?;
    Some(match v {
        RawJson::Null => JsonValue::Null,
        RawJson::Bool(b) => JsonValue::Bool(b),
        RawJson::Number(n) => JsonValue::UInt(n.as_u64()?),
        RawJson::String(t) => JsonValue::Str(t),
        RawJson::Array(a) => JsonValue::Arr(
            a.iter().map(|e| parse_json(&e.to_string())).collect::<Option<_>>()?,
        ),
        RawJson::Object(o) => JsonValue::Obj(
            o.iter().map(|(k, e)| parse_json(&e.to_string()).map(|j| (k.clone(), j))).collect::<
                Option<_>,
            >()?,
        ),
    })
}

/// The value of the first field with the given key.
pub open spec fn spec_obj_lookup(fields: Seq<(String, JsonValue)>, key: Seq<char>) -> Option<
    JsonValue,
>
    decreases fields.len(),
{
    if fields.len() == 0 {
        None
    } else if fields[0].0@ == key {
        Some(fields[0].1)
    } else {
        spec_obj_lookup(fields.drop_first(), key)
    }
}

/// The value of the field with the given key, where `j` is an object
/// that has it.
pub open spec fn spec_get(j: JsonValue, key: Seq<char>) -> Option<JsonValue> {
    match j {
        JsonValue::Obj(fields) => spec_obj_lookup(fields@, key),
        _ => None,
    }
}

/// String equality by contents.
pub fn str_eq(a: &str, b: &str) -> (r: bool)
    ensures
        r == (a@ == b@),
{
    let x = a.to_owned();
    let y = b.to_owned();
    x == y
}

/// Looks a key up in a JSON object.
pub fn obj_get<'a>(j: &'a JsonValue, key: &str) -> (r: Option<&'a JsonValue>)
    ensures
        match r {
            Some(v) => spec_get(*j, key@) == Some(*v),
            None => spec_get(*j, key@) is None,
        },
{
    match j {
        JsonValue::Obj(fields) => {
            proof {
                assert(fields@.skip(0) =~= fields@);
            }
            let mut i: usize = 0;
            while i < fields.len()
                invariant
                    i <= fields@.len(),
                    *j == JsonValue::Obj(*fields),
                    spec_get(*j, key@) == spec_obj_lookup(fields@.skip(i as int), key@),
                decreases fields@.len() - i,
            {
                proof {
                    assert(fields@.skip(i as int)[0] == fields@[i as int]);
                    assert(fields@.skip(i as int).drop_first() =~= fields@.skip(i as int + 1));
                }
                if str_eq(fields[i].0.as_str(), key) {
                    return Some(&fields[i].1);
                }
                i = i + 1;
            }
            proof {
                assert(fields@.skip(i as int) =~= Seq::<(String, JsonValue)>::empty());
            }
            None
        },
        _ => None,
    }
}

/// The key's value where it is a number.
pub open spec fn spec_get_u64(j: JsonValue, key: Seq<char>) -> Option<u64> {
    match spec_get(j, key) {
        Some(JsonValue::UInt(n)) => Some(n),
        _ => None,
    }
}

pub fn get_u64(j: &JsonValue, key: &str) -> (r: Option<u64>)
    ensures
        r == spec_get_u64(*j, key@),
{
    match obj_get(j, key) {
        Some(JsonValue::UInt(n)) => Some(*n),
        _ => None,
    }
}

/// The key's value where it is a string.
pub open spec fn spec_get_string(j: JsonValue, key: Seq<char>) -> Option<Seq<char>> {
    match spec_get(j, key) {
        Some(JsonValue::Str(s)) => Some(s@),
        _ => None,
    }
}

pub fn get_string(j: &JsonValue, key: &str) -> (r: Option<String>)
    ensures
        match r {
            Some(s) => spec_get_string(*j, key@) == Some(s@),
            None => spec_get_string(*j, key@) is None,
        },
{
    match obj_get(j, key) {
        Some(JsonValue::Str(s)) => Some(s.clone()),
        _ => None,
    }
}

/// The key's value where it is a boolean.
pub open spec fn spec_get_bool(j: JsonValue, key: Seq<char>) -> Option<bool> {
    match spec_get(j, key) {
        Some(JsonValue::Bool(b)) => Some(b),
        _ => None,
    }
}

pub fn get_bool(j: &JsonValue, key: &str) -> (r: Option<bool>)
    ensures
        r == spec_get_bool(*j, key@),
{
    match obj_get(j, key) {
        Some(JsonValue::Bool(b)) => Some(*b),
        _ => None,
    }
}

/// The key's value where it is an array.
pub open spec fn spec_get_arr(j: JsonValue, key: Seq<char>) -> Option<Seq<JsonValue>> {
    match spec_get(j, key) {
        Some(JsonValue::Arr(a)) => Some(a@),
        _ => None,
    }
}

pub fn get_arr<'a>(j: &'a JsonValue, key: &str) -> (r: Option<&'a Vec<JsonValue>>)
    ensures
        match r {
            Some(a) => spec_get_arr(*j, key@) == Some(a@),
            None => spec_get_arr(*j, key@) is None,
        },
{
    match obj_get(j, key) {
        Some(JsonValue::Arr(a)) => Some(a),
        _ => None,
    }
}

/// A nullable number field: absent or null is an absent value, a number
/// is a present value, and anything else does not fit the shape.
pub open spec fn spec_get_nullable_u64(j: JsonValue, key: Seq<char>) -> Option<Option<u64>> {
    match spec_get(j, key) {
        None => Some(None),
        Some(JsonValue::Null) => Some(None),
        Some(JsonValue::UInt(n)) => Some(Some(n)),
        _ => None,
    }
}

pub fn get_nullable_u64(j: &JsonValue, key: &str) -> (r: Option<Option<u64>>)
    ensures
        r == spec_get_nullable_u64(*j, key@),
{
    match obj_get(j, key) {
        None => Some(None),
        Some(JsonValue::Null) => Some(None),
        Some(JsonValue::UInt(n)) => Some(Some(*n)),
        _ => None,
    }
}

/// A nullable string field, as `spec_get_nullable_u64`.
pub open spec fn spec_get_nullable_string(j: JsonValue, key: Seq<char>) -> Option<
    Option<Seq<char>>,
> {
    match spec_get(j, key) {
        None => Some(None),
        Some(JsonValue::Null) => Some(None),
        Some(JsonValue::Str(s)) => Some(Some(s@)),
        _ => None,
    }
}

/// The contents of an optional string value.
pub open spec fn spec_view_opt_string(o: Option<String>) -> Option<Seq<char>> {
    match o {
        Some(s) => Some(s@),
        None => None,
    }
}

pub fn get_nullable_string(j: &JsonValue, key: &str) -> (r: Option<Option<String>>)
    ensures
        match r {
            Some(v) => spec_get_nullable_string(*j, key@) == Some(spec_view_opt_string(v)),
            None => spec_get_nullable_string(*j, key@) is None,
        },
{
    match obj_get(j, key) {
        None => Some(None),
        Some(JsonValue::Null) => Some(None),
        Some(JsonValue::Str(s)) => Some(Some(s.clone())),
        _ => None,
    }
}

/// The escape of one character inside a JSON string literal: quote,
/// backslash, newline, carriage return and tab are escaped; every other
/// character stands for itself (the API's identifiers hold no other
/// control characters).
pub open spec fn spec_escape_char(c: char) -> Seq<char> {
    if c == '"' {
        seq!['\\', '"']
    } else if c == '\\' {
        seq!['\\', '\\']
    } else if c == '\n' {
        seq!['\\', 'n']
    } else if c == '\r' {
        seq!['\\', 'r']
    } else if c == '\t' {
        seq!['\\', 't']
    } else {
        seq![c]
    }
}

/// The body of a JSON string literal holding the given text.
pub open spec fn spec_json_escape(s: Seq<char>) -> Seq<char>
    decreases s.len(),
{
    if s.len() == 0 {
        Seq::empty()
    } else {
        spec_json_escape(s.drop_last()) + spec_escape_char(s.last())
    }
}

pub fn json_escape(s: &str) -> (r: String)
    ensures
        r@ == spec_json_escape(s@),
{
    let cs = text::str_chars(s);
    let n = cs.len();
    let mut out: Vec<char> = Vec::new();
    proof {
        assert(cs@.take(0) =~= Seq::<char>::empty());
        assert(out@ =~= spec_json_escape(cs@.take(0)));
    }
    for i in 0..n
        invariant
            n == cs@.len(),
            cs@ == s@,
            out@ == spec_json_escape(cs@.take(i as int)),
    {
        let ghost prev = out@;
        let c = cs[i];
        if c == '"' {
            out.push('\\');
            out.push('"');
        } else if c == '\\' {
            out.push('\\');
            out.push('\\');
        } else if c == '\n' {
            out.push('\\');
            out.push('n');
        } else if c == '\r' {
            out.push('\\');
            out.push('r');
        } else if c == '\t' {
            out.push('\\');
            out.push('t');
        } else {
            out.push(c);
        }
        proof {
            assert(cs@.take(i + 1).drop_last() =~= cs@.take(i as int));
            assert(cs@.take(i + 1).last() == cs@[i as int]);
            assert(out@ =~= prev + spec_escape_char(cs@[i as int]));
        }
    }
    proof {
        assert(cs@.take(n as int) =~= cs@);
    }
    text::chars_to_string(&out)
}

/// The JSON text of an object with one string-valued field.
pub fn json_string_object(key: &str, text_value: &str) -> (r: String)
    ensures
        r@ == "{\""@ + spec_json_escape(key@) + "\":\""@ + spec_json_escape(text_value@) + "\"}"@,
{
    let k = json_escape(key);
    let v = json_escape(text_value);
    String::from_str("{\"").concat(k.as_str()).concat("\":\"").concat(v.as_str()).concat("\"}")
}

} // verus!

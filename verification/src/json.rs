//! A model of parsed JSON values and the trusted bridge to the JSON parser.
//!
//! Device responses and outbound command payloads are JSON.  The parser
//! itself is an outside concern; everything the control logic reads out of
//! a parsed value is expressed over [`JsonVal`], a plain tree the verifier
//! can reason about.

use vstd::prelude::*;

verus! {

/// A parsed JSON value.
///
/// Numbers that are not unsigned integers are collapsed into `OtherNum`:
/// the decoding logic only ever reads unsigned integer datapoints, and a
/// field of any other numeric shape fails decoding exactly as an ill-typed
/// field does.
#[derive(Debug, PartialEq)]
pub enum JsonVal {
    Null,
    Bool(bool),
    UInt(u64),
    OtherNum,
    Text(String),
    Arr(Vec<JsonVal>),
    Obj(Vec<(String, JsonVal)>),
}

/// The value a JSON object associates with `key`: the first pair whose key
/// reads as `key`, if any.
pub open spec fn obj_get_spec(pairs: Seq<(String, JsonVal)>, key: Seq<char>) -> Option<JsonVal>
    decreases pairs.len(),
{
    if pairs.len() == 0 {
        None
    } else if pairs[0].0@ == key {
        Some(pairs[0].1)
    } else {
        obj_get_spec(pairs.drop_first(), key)
    }
}

/// Looks `key` up in an object's pair list.
pub fn obj_get<'a>(pairs: &'a Vec<(String, JsonVal)>, key: &String) -> (r: Option<&'a JsonVal>)
    ensures
        match obj_get_spec(pairs@, key@) {
            Some(v) => r matches Some(rv) && *rv == v,
            None => r is None,
        },
{
    let n = pairs.len();
    proof {
        assert(pairs@.skip(0) =~= pairs@);
    }
    for i in 0..n
        invariant
            n == pairs@.len(),
            obj_get_spec(pairs@, key@) == obj_get_spec(pairs@.skip(i as int), key@),
    {
        proof {
            assert(pairs@.skip(i as int)[0] == pairs@[i as int]);
        }
        if pairs[i].0 == *key {
            return Some(&pairs[i].1);
        }
        proof {
            assert(pairs@.skip(i as int).drop_first() =~= pairs@.skip(i + 1));
        }
    }
    proof {
        assert(pairs@.skip(n as int) =~= Seq::<(String, JsonVal)>::empty());
    }
    None
}

/// What the JSON parser yields on a given text, carried over into the
/// library's value model; `None` where the text is not valid JSON.  The
/// result depends on the text alone.
pub uninterp spec fn json_parse(s: Seq<char>) -> Option<JsonVal>;

/// Relies on `serde_json::from_str`: parses JSON text into a value tree,
/// or fails on invalid JSON.
#[verifier::external_body]
pub(crate) fn parse_json(s: &str) -> (r: Option<JsonVal>)
    ensures
        r == json_parse(s@),
{
    match serde_json::from_str::<serde_json::Value>(s) {
        Ok(v) => Some(value_into_jsonval(v)),
        Err(_) => None,
    }
}

#[verifier::external_type_specification]
#[verifier::external_body]
pub struct ExJsonValue(serde_json::Value);

/// Relies on `serde_json::Value`: carries each variant of the parsed tree
/// over into the library's value model, one arm per variant.
#[verifier::external_body]
fn value_into_jsonval(v: serde_json::Value) -> JsonVal {
    match v {
        serde_json::Value::Null => JsonVal::Null,
        serde_json::Value::Bool(b) => JsonVal::Bool(b),
        serde_json::Value::Number(n) => n.as_u64().map_or(JsonVal::OtherNum, JsonVal::UInt),
        serde_json::Value::String(s) => JsonVal::Text(s),
        serde_json::Value::Array(a) => JsonVal::Arr(
            a.into_iter().map(value_into_jsonval).collect(),
        ),
        serde_json::Value::Object(m) => JsonVal::Obj(
            m.into_iter().map(|(k, x)| (k, value_into_jsonval(x))).collect(),
        ),
    }
}

} // verus!

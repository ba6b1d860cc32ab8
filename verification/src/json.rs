//! The library's model of a decoded JSON document, and the trusted parse
//! step that produces it.
//!
//! A [`Json`] value mirrors a JSON document structurally, except that a
//! number keeps its decimal text instead of being narrowed to a machine
//! float: the library never computes on the readings, it carries them
//! through. Parsing a document's text is delegated to `serde_json`; the
//! result of that call, converted into this model, is named by the
//! uninterpreted function [`json_of`], and everything the library then does
//! with the model is verified.

use vstd::prelude::*;

use crate::text::str_eq;

verus! {

/// A decoded JSON document. Object entries keep the order the parser hands
/// them out in; a number is kept as its decimal text.
#[derive(Debug)]
pub enum Json {
    Null,
    Bool(bool),
    Num(String),
    Str(String),
    Arr(Vec<Json>),
    Obj(Vec<(String, Json)>),
}

/// The value under the first entry with the given key, if any.
pub open spec fn lookup(entries: Seq<(String, Json)>, key: Seq<char>) -> Option<Json>
    decreases entries.len(),
{
    if entries.len() == 0 {
        None
    } else if entries[0].0@ == key {
        Some(entries[0].1)
    } else {
        lookup(entries.drop_first(), key)
    }
}

/// Finds the first entry with the given key.
pub fn obj_get<'a>(entries: &'a Vec<(String, Json)>, key: &str) -> (r: Option<&'a Json>)
    ensures
        match r {
            Some(j) => lookup(entries@, key@) == Some(*j),
            None => lookup(entries@, key@) is None,
        },
{
    let n = entries.len();
    let mut i: usize = 0;
    proof {
        assert(entries@.skip(0) =~= entries@);
    }
    while i < n
        invariant
            i <= n,
            n == entries@.len(),
            lookup(entries@, key@) == lookup(entries@.skip(i as int), key@),
        decreases n - i,
    {
        proof {
            assert(entries@.skip(i as int)[0] == entries@[i as int]);
        }
        if str_eq(entries[i].0.as_str(), key) {
            return Some(&entries[i].1);
        }
        proof {
            assert(entries@.skip(i as int).drop_first() =~= entries@.skip(i as int + 1));
        }
        i += 1;
    }
    proof {
        assert(entries@.skip(n as int) =~= Seq::<(String, Json)>::empty());
    }
    None
}

/// Declares `serde_json::Value`, the parser's own document type, so that
/// the trusted items below may mention it; the library never looks
/// inside such a value.
#[verifier::external_type_specification]
#[verifier::external_body]
pub struct ExValue(serde_json::Value);

/// The JSON document that the given text spells, in the library's model,
/// or `None` when the text is not valid JSON. This is the result of
/// `serde_json`'s parse, which depends on the text alone.
pub uninterp spec fn json_of(s: Seq<char>) -> Option<Json>;

/// Relies on the shape of `serde_json::Value`: one arm per variant, moving
/// the fields into the library's model; a number becomes the decimal text
/// that its `Display` writes. This is the conversion step of [`parse_json`].
#[verifier::external_body]
fn json_from_value(v: &serde_json::Value) -> Json {
    match v {
        serde_json::Value::Null => Json::Null,
        serde_json::Value::Bool(b) => Json::Bool(*b),
        serde_json::Value::Number(n) => Json::Num(n.to_string()),
        serde_json::Value::String(s) => Json::Str(s.clone()),
        serde_json::Value::Array(a) => Json::Arr(a.iter().map(json_from_value).collect()),
        serde_json::Value::Object(m) => Json::Obj(
            m.iter().map(|e| (e.0.clone(), json_from_value(e.1))).collect(),
        ),
    }
}

/// Relies on `serde_json::from_str::<Value>`: parses a JSON document;
/// whether it succeeds and what it returns depend on the text alone, so
/// both are named by [`json_of`]. On failure the error's message is
/// returned.
#[verifier::external_body]
pub(crate) fn parse_json(s: &str) -> (r: Result<Json, String>)
    ensures
        r is Ok <==> json_of(s@) is Some,
        r matches Ok(j) ==> Some(j) == json_of(s@),
{
    match serde_json::from_str::<serde_json::Value>(s) {
        Ok(v) => Ok(json_from_value(&v)),
        Err(e) => Err(format!("{e}")),
    }
}

} // verus!

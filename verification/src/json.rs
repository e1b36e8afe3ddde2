//! The JSON boundary: a transparent tree of plain values that every
//! response payload is converted into at the parse boundary, so that all
//! later reading is verified logic.
use vstd::prelude::*;
use serde_json::Value;
use crate::text::str_eq;

verus! {

#[verifier::external_type_specification]
#[verifier::external_body]
pub struct ExValue(Value);

/// A parsed JSON document, carried as plain values: numbers keep their
/// rendered numeral, and objects their entries with unique keys, in the
/// parser's key order.
#[derive(Debug, PartialEq)]
pub enum Json {
    Null,
    Bool(bool),
    Number(String),
    Text(String),
    Array(Vec<Json>),
    Object(Vec<(String, Json)>),
}

/// What parsing a text as JSON yields: the document's tree on success,
/// and otherwise whether the failure is a syntax error (`Err(true)`) or a
/// failure of another kind (`Err(false)`). The outcome is a function of
/// the text alone.
pub uninterp spec fn json_tree_of(s: Seq<char>) -> Result<Json, bool>;

/// Relies on `serde_json::Value` being an enum of these six shapes:
/// rewrites a parsed value into the library's tree, variant by variant,
/// rendering numbers by their standard form.
#[verifier::external_body]
fn value_to_json(v: Value) -> (r: Json) {
    match v {
        Value::Null => Json::Null,
        Value::Bool(b) => Json::Bool(b),
        Value::Number(n) => Json::Number(n.to_string()),
        Value::String(s) => Json::Text(s),
        Value::Array(elements) => Json::Array(elements.into_iter().map(value_to_json).collect()),
        Value::Object(m) => Json::Object(
            m.into_iter().map(|e| (e.0, value_to_json(e.1))).collect(),
        ),
    }
}

/// Relies on `serde_json::from_str::<Value>` and `serde_json::Error::classify`:
/// parses the text as JSON and hands the document over as the library's
/// tree; on failure tells a syntax error apart from the other kinds and
/// carries the error's description.
#[verifier::external_body]
pub(crate) fn parse_json(s: &str) -> (r: Result<Json, (bool, String)>)
    ensures
        match r {
            Ok(tree) => json_tree_of(s@) == Ok::<Json, bool>(tree),
            Err(e) => json_tree_of(s@) == Err::<Json, bool>(e.0),
        },
{
    match serde_json::from_str::<Value>(s) {
        Ok(v) => Ok(value_to_json(v)),
        Err(e) => Err((e.classify() == serde_json::error::Category::Syntax, e.to_string())),
    }
}

/// Parses a text as JSON, keeping the failure classification only.
pub fn json_of_text(s: &str) -> (r: Result<Json, bool>)
    ensures
        r == json_tree_of(s@),
{
    match parse_json(s) {
        Ok(tree) => Ok(tree),
        Err(e) => Err(e.0),
    }
}

/// The value under the first entry with this key, if one is there.
pub open spec fn spec_lookup(entries: Seq<(String, Json)>, key: Seq<char>) -> Option<Json>
    decreases entries.len(),
{
    if entries.len() == 0 {
        None
    } else if entries[0].0@ == key {
        Some(entries[0].1)
    } else {
        spec_lookup(entries.skip(1), key)
    }
}

/// Finds the first entry with this key among an object's entries.
pub fn lookup<'a>(entries: &'a Vec<(String, Json)>, key: &str) -> (r: Option<&'a Json>)
    ensures
        match r {
            Some(j) => spec_lookup(entries@, key@) == Some(*j),
            None => spec_lookup(entries@, key@) is None,
        },
{
    let n = entries.len();
    let mut i: usize = 0;
    proof {
        assert(entries@.skip(0) =~= entries@);
    }
    while i < n
        invariant
            0 <= i <= n,
            n == entries@.len(),
            spec_lookup(entries@, key@) == spec_lookup(entries@.skip(i as int), key@),
        decreases n - i,
    {
        proof {
            assert(entries@.skip(i as int)[0] == entries@[i as int]);
        }
        if str_eq(entries[i].0.as_str(), key) {
            return Some(&entries[i].1);
        }
        proof {
            assert(entries@.skip(i as int).skip(1) =~= entries@.skip(i + 1));
        }
        i = i + 1;
    }
    proof {
        assert(entries@.skip(n as int) =~= Seq::<(String, Json)>::empty());
    }
    None
}

/// Takes the first entry with this key out of an object's entries; when
/// no entry has the key, the entries are left as they were.
pub fn take_key(entries: &mut Vec<(String, Json)>, key: &str) -> (r: Option<Json>)
    ensures
        match r {
            Some(j) => spec_lookup(old(entries)@, key@) == Some(j),
            None => spec_lookup(old(entries)@, key@) is None && *final(entries) == *old(entries),
        },
{
    let n = entries.len();
    let mut i: usize = 0;
    proof {
        assert(entries@.skip(0) =~= entries@);
    }
    while i < n
        invariant
            0 <= i <= n,
            n == entries@.len(),
            *entries == *old(entries),
            spec_lookup(entries@, key@) == spec_lookup(entries@.skip(i as int), key@),
        decreases n - i,
    {
        proof {
            assert(entries@.skip(i as int)[0] == entries@[i as int]);
        }
        if str_eq(entries[i].0.as_str(), key) {
            let entry = entries.remove(i);
            return Some(entry.1);
        }
        proof {
            assert(entries@.skip(i as int).skip(1) =~= entries@.skip(i + 1));
        }
        i = i + 1;
    }
    proof {
        assert(entries@.skip(n as int) =~= Seq::<(String, Json)>::empty());
    }
    None
}

} // verus!

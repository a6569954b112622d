//! JSON documents as plain trees, read with `serde_json`.

use crate::error::{DecodeError, DecodeErrorView};
use serde_json::Value;
use vstd::prelude::*;

verus! {

/// A JSON number, kept the way the reader classified it.
#[derive(Clone, Copy, Debug, PartialEq, Eq, Structural)]
pub enum JsonNumber {
    /// A non-negative integer.
    Unsigned(u64),
    /// An integer below zero, as the reader gives it. Written by hand it
    /// may hold any integer, and is read as that integer.
    Signed(i64),
    /// Any other number, as the bit pattern of its IEEE 754 double.
    Real(u64),
}

/// A JSON document. The entries of an object are kept as a list of pairs; of
/// two entries with one key the first is the one that is read.
#[derive(Debug, PartialEq)]
pub enum Json {
    Null,
    Bool(bool),
    Number(JsonNumber),
    Text(String),
    Array(Vec<Json>),
    Object(Vec<(String, Json)>),
}

/// Makes `serde_json::Value` known as a type; nothing of what a value of it
/// holds is visible but through `value_tree`.
#[verifier::external_type_specification]
#[verifier::external_body]
pub struct ExValue(Value);

/// What `serde_json::from_str::<Value>` makes of a text: the document, or the
/// message of the error it reports.
pub uninterp spec fn json_document(text: Seq<char>) -> Result<Value, Seq<char>>;

/// The tree that a `serde_json::Value` holds, entries of an object in the
/// order in which its map hands them out.
pub uninterp spec fn value_tree(value: Value) -> Json;

/// Calls `serde_json::from_str::<Value>`. Trusted: the result is
/// `json_document` of the text, the error rendered by its `Display`.
#[verifier::external_body]
fn parse_value(text: &str) -> (r: Result<Value, String>)
    ensures
        match r {
            Ok(v) => json_document(text@) == Ok::<Value, Seq<char>>(v),
            Err(m) => json_document(text@) == Err::<Value, Seq<char>>(m@),
        },
{
    serde_json::from_str::<Value>(text).map_err(|e| e.to_string())
}

/// Copies a `serde_json::Value` into a [`Json`], variant by variant. Trusted:
/// the result is `value_tree` of the value. A number goes by `as_u64`, then
/// `as_i64`, then the bits of `as_f64`.
#[verifier::external_body]
fn tree_of(value: Value) -> (tree: Json)
    ensures
        tree == value_tree(value),
{
    match value {
        Value::Null => Json::Null,
        Value::Bool(b) => Json::Bool(b),
        Value::Number(n) => Json::Number(match (n.as_u64(), n.as_i64()) {
            (Some(u), _) => JsonNumber::Unsigned(u),
            (_, Some(i)) => JsonNumber::Signed(i),
            _ => JsonNumber::Real(n.as_f64().unwrap_or_default().to_bits()),
        }),
        Value::String(s) => Json::Text(s),
        Value::Array(items) => Json::Array(items.into_iter().map(tree_of).collect()),
        Value::Object(map) => Json::Object(map.into_iter().map(|(k, v)| (k, tree_of(v))).collect()),
    }
}

/// The value of the first entry of `fields` whose key is `name`.
pub open spec fn spec_get(fields: Seq<(String, Json)>, name: Seq<char>) -> Option<Json>
    decreases fields.len(),
{
    if fields.len() == 0 {
        None
    } else if fields[0].0@ == name {
        Some(fields[0].1)
    } else {
        spec_get(fields.drop_first(), name)
    }
}

/// Where no key among the first `n` entries is `name`, the search may as well
/// start behind them.
proof fn lemma_get_skips(fields: Seq<(String, Json)>, name: Seq<char>, n: int)
    requires
        0 <= n <= fields.len(),
        forall|k: int| 0 <= k < n ==> (#[trigger] fields[k]).0@ != name,
    ensures
        spec_get(fields, name) == spec_get(fields.skip(n), name),
    decreases n,
{
    if n == 0 {
        assert(fields.skip(0) =~= fields);
    } else {
        let rest = fields.drop_first();
        assert forall|k: int| 0 <= k < n - 1 implies (#[trigger] rest[k]).0@ != name by {
            assert(rest[k] == fields[k + 1]);
        }
        lemma_get_skips(rest, name, n - 1);
        assert(rest.skip(n - 1) =~= fields.skip(n));
    }
}

impl Json {
    /// The document that a text holds, or the parser's message.
    pub open spec fn spec_parse(text: Seq<char>) -> Result<Json, Seq<char>> {
        match json_document(text) {
            Ok(v) => Ok(value_tree(v)),
            Err(m) => Err(m),
        }
    }

    /// Reads a JSON document from `text`.
    pub fn parse(text: &str) -> (r: Result<Json, DecodeError>)
        ensures
            match r {
                Ok(tree) => Json::spec_parse(text@) == Ok::<Json, Seq<char>>(tree),
                Err(e) => e@ is Syntax && Json::spec_parse(text@) == Err::<Json, Seq<char>>(
                    e@->Syntax_0,
                ),
            },
    {
        match parse_value(text) {
            Ok(value) => Ok(tree_of(value)),
            Err(message) => Err(DecodeError::Syntax(message)),
        }
    }

    /// Looks `name` up among the entries of an object.
    pub fn get<'a>(fields: &'a Vec<(String, Json)>, name: &str) -> (r: Option<&'a Json>)
        ensures
            match r {
                Some(value) => spec_get(fields@, name@) == Some(*value),
                None => spec_get(fields@, name@) is None,
            },
    {
        let key = name.to_owned();
        let mut i: usize = 0;
        while i < fields.len()
            invariant
                i <= fields.len(),
                key@ == name@,
                forall|k: int| 0 <= k < i ==> (#[trigger] fields@[k]).0@ != name@,
            decreases fields.len() - i,
        {
            if fields[i].0 == key {
                proof {
                    lemma_get_skips(fields@, name@, i as int);
                }
                return Some(&fields[i].1);
            }
            i += 1;
        }
        proof {
            lemma_get_skips(fields@, name@, fields@.len() as int);
        }
        None
    }
}

} // verus!

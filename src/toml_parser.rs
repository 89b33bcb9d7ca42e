//! The manifest as a tree of tables, strings and arrays, and its decoding.
use vstd::prelude::*;

use crate::text::text_eq;

verus! {

/// A decoded document: a table of keys, a string, an array, or a scalar
/// that is not a string (a number, a boolean or a date), which the resolver
/// never reads.
#[derive(Debug)]
pub enum Toml {
    /// A table, with its keys in the order the decoder listed them.
    Nested(Vec<(String, Toml)>),
    /// A string.
    Value(String),
    /// An array.
    Array(Vec<Toml>),
    /// Any other scalar.
    Empty,
}

/// The value under `key` in a table's entries: the first entry with that key.
pub open spec fn table_lookup(entries: Seq<(String, Toml)>, key: Seq<char>) -> Option<Toml>
    decreases entries.len(),
{
    if entries.len() == 0 {
        None
    } else if entries[0].0@ == key {
        Some(entries[0].1)
    } else {
        table_lookup(entries.drop_first(), key)
    }
}

/// The value under `key` when `t` is a table; nothing otherwise.
pub open spec fn field(t: Toml, key: Seq<char>) -> Option<Toml> {
    match t {
        Toml::Nested(entries) => table_lookup(entries@, key),
        _ => None,
    }
}

/// The tree that the TOML decoder builds from `text`, or nothing where the
/// text is not a valid TOML document.
pub uninterp spec fn toml_document(text: Seq<char>) -> Option<Toml>;

/// Relies on `toml::from_str` (decoding into a `toml::Value`): it either
/// yields the document's tree or reports a decoding error, and the outcome
/// depends on the text alone.
#[verifier::external_body]
fn decode_toml(text: &str) -> (r: Result<Toml, toml::de::Error>)
    ensures
        match r {
            Ok(doc) => toml_document(text@) == Some(doc),
            Err(_) => toml_document(text@) is None,
        },
{
    match toml::from_str::<toml::Value>(text) {
        Ok(v) => Ok(tree_of_value(v)),
        Err(e) => Err(e),
    }
}

/// The conversion half of `decode_toml`, in a function of its own because it
/// recurses: moves a `toml::Value` into the library's tree, variant for
/// variant, keeping the order in which `toml::map::Map` lists the keys.
#[verifier::external_body]
fn tree_of_value(v: toml::Value) -> Toml {
    match v {
        toml::Value::String(s) => Toml::Value(s),
        toml::Value::Table(t) => {
            Toml::Nested(t.into_iter().map(|(k, v)| (k, tree_of_value(v))).collect())
        },
        toml::Value::Array(a) => Toml::Array(a.into_iter().map(tree_of_value).collect()),
        _ => Toml::Empty,
    }
}

/// Decodes a manifest's text.
pub fn parse_toml(toml_str: &str) -> (r: Result<Toml, crate::ResolveError>)
    ensures
        match r {
            Ok(doc) => toml_document(toml_str@) == Some(doc),
            Err(crate::ResolveError::InvalidToml { .. }) => toml_document(toml_str@) is None,
            Err(_) => false,
        },
{
    match decode_toml(toml_str) {
        Ok(doc) => Ok(doc),
        Err(e) => Err(crate::ResolveError::InvalidToml { source: e }),
    }
}

/// Looks up `key` in a table's entries.
pub fn table_get<'a>(entries: &'a Vec<(String, Toml)>, key: &str) -> (r: Option<&'a Toml>)
    ensures
        match r {
            Some(v) => table_lookup(entries@, key@) == Some(*v),
            None => table_lookup(entries@, key@) is None,
        },
{
    let n = entries.len();
    let mut i: usize = 0;
    assert(entries@.subrange(0, n as int) =~= entries@);
    while i < n
        invariant
            n == entries@.len(),
            i <= n,
            table_lookup(entries@, key@) == table_lookup(entries@.subrange(i as int, n as int), key@),
        decreases n - i,
    {
        assert(entries@.subrange(i as int, n as int).drop_first() =~= entries@.subrange(i + 1, n as int));
        if text_eq(entries[i].0.as_str(), key) {
            return Some(&entries[i].1);
        }
        i = i + 1;
    }
    None
}

/// The value under `key` when `t` is a table.
pub fn get<'a>(t: &'a Toml, key: &str) -> (r: Option<&'a Toml>)
    ensures
        match r {
            Some(v) => field(*t, key@) == Some(*v),
            None => field(*t, key@) is None,
        },
{
    match t {
        Toml::Nested(entries) => table_get(entries, key),
        _ => None,
    }
}

} // verus!

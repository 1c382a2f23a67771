//! The two calls into the `toml` crate that the configuration file needs:
//! reading one integer out of a document, and writing a document that holds
//! one integer. Both are believed, not proved.

use vstd::prelude::*;

verus! {

/// `toml::de::Error`, with which `toml` refuses a text. Nothing is read out
/// of it here.
#[verifier::external_type_specification]
#[verifier::external_body]
pub struct ExDecodeError(toml::de::Error);

/// `toml::ser::Error`, with which `toml` refuses to write a value. Nothing is
/// read out of it here.
#[verifier::external_type_specification]
#[verifier::external_body]
pub struct ExEncodeError(toml::ser::Error);

/// What `toml` finds in `text` under the top-level key `key`: `None` where
/// `text` is no TOML document, `Some(None)` where the document holds no
/// integer under that key, `Some(Some(n))` where it holds the integer `n`.
pub uninterp spec fn toml_integer_lookup(text: Seq<char>, key: Seq<char>) -> Option<Option<i64>>;

/// The text `toml` writes for a document whose only entry is the integer
/// `value` under `key`, or `None` where it refuses to write one.
pub uninterp spec fn toml_integer_document(key: Seq<char>, value: i64) -> Option<Seq<char>>;

/// Parses `text` with `toml::from_str` into a `toml::Table` and reads the
/// entry under `key` with `Map::get` and `Value::as_integer`.
///
/// Trusted: the outcome is the one `toml_integer_lookup` names, an error
/// standing for a text that does not parse.
#[verifier::external_body]
pub(crate) fn lookup_integer(text: &str, key: &str) -> (r: Result<Option<i64>, toml::de::Error>)
    ensures
        r is Ok <==> toml_integer_lookup(text@, key@) is Some,
        r is Ok ==> toml_integer_lookup(text@, key@) == Some(r->Ok_0),
{
    let table = toml::from_str::<toml::Table>(text)?;
    Ok(table.get(key).and_then(toml::Value::as_integer))
}

/// Builds a `toml::Table` with the single entry `key = value` and renders it
/// with `toml::to_string`.
///
/// Trusted: the outcome is the one `toml_integer_document` names, an error
/// standing for a refusal.
#[verifier::external_body]
pub(crate) fn integer_document(key: &str, value: i64) -> (r: Result<String, toml::ser::Error>)
    ensures
        r is Ok <==> toml_integer_document(key@, value) is Some,
        r is Ok ==> toml_integer_document(key@, value) == Some(r->Ok_0@),
{
    let mut table = toml::Table::new();
    table.insert(key.to_string(), toml::Value::Integer(value));
    toml::to_string(&table)
}

} // verus!

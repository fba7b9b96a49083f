//! The trusted boundary to the TOML parser.
//!
//! The loader treats the text format itself as an external collaborator: the
//! `toml` crate parses the document and hands back its top-level table. What
//! each of those calls returns is named by uninterpreted spec functions; the
//! schema mapping built on top of them lives in [`crate::config`] and is
//! verified.

use vstd::prelude::*;

verus! {

#[verifier::external_type_specification]
#[verifier::external_body]
#[verifier::reject_recursive_types(K)]
#[verifier::reject_recursive_types(V)]
pub struct ExTomlMap<K, V>(toml::map::Map<K, V>);

#[verifier::external_type_specification]
#[verifier::external_body]
pub struct ExTomlValue(toml::Value);

#[verifier::external_type_specification]
#[verifier::external_body]
pub struct ExTomlDeError(toml::de::Error);

/// The top-level table that TOML text parses to, or `None` for text that is
/// not syntactically valid TOML. Parsing is a function of the text alone.
pub uninterp spec fn table_of(s: Seq<char>) -> Option<toml::map::Map<String, toml::Value>>;

/// What a table holds under a key, or `None` when the key is absent.
pub uninterp spec fn table_entry(
    t: toml::map::Map<String, toml::Value>,
    key: Seq<char>,
) -> Option<toml::Value>;

/// The string payload of a value, or `None` when the value is not a string.
pub uninterp spec fn value_str(v: toml::Value) -> Option<Seq<char>>;

/// The table payload of a value, or `None` when the value is not a table.
pub uninterp spec fn value_table(v: toml::Value) -> Option<toml::map::Map<String, toml::Value>>;

/// Relies on `<toml::Table as core::str::FromStr>::from_str`: parsing yields
/// the document's top-level table for syntactically valid TOML text and a
/// syntax error otherwise, and depends on the text alone.
#[verifier::external_body]
pub(crate) fn parse_table(s: &str) -> (r: Result<
    toml::map::Map<String, toml::Value>,
    toml::de::Error,
>)
    ensures
        r is Ok <==> table_of(s@) is Some,
        r matches Ok(t) ==> table_of(s@) == Some(t),
{
    s.parse()
}

/// Relies on `toml::map::Map::get`: looks the key up in the table.
#[verifier::external_body]
pub(crate) fn table_get<'a>(
    t: &'a toml::map::Map<String, toml::Value>,
    key: &str,
) -> (r: Option<&'a toml::Value>)
    ensures
        r is Some <==> table_entry(*t, key@) is Some,
        r matches Some(v) ==> table_entry(*t, key@) == Some(*v),
{
    t.get(key)
}

/// Relies on `toml::Value::as_str`: yields the payload exactly when the value
/// is a TOML string.
#[verifier::external_body]
pub(crate) fn value_as_str(v: &toml::Value) -> (r: Option<String>)
    ensures
        r is Some <==> value_str(*v) is Some,
        r matches Some(s) ==> value_str(*v) == Some(s@),
{
    v.as_str().map(str::to_owned)
}

/// Relies on `toml::Value::as_table`: yields the payload exactly when the
/// value is a TOML table.
#[verifier::external_body]
pub(crate) fn value_as_table<'a>(v: &'a toml::Value) -> (r: Option<
    &'a toml::map::Map<String, toml::Value>,
>)
    ensures
        r is Some <==> value_table(*v) is Some,
        r matches Some(t) ==> value_table(*v) == Some(*t),
{
    v.as_table()
}

/// Relies on `toml::de::Error`'s `Display` impl: the rendered message names
/// the syntax problem with its line/column position in the document.
#[verifier::external_body]
pub(crate) fn describe_parse_error(e: &toml::de::Error) -> String {
    format!("{e}")
}

} // verus!

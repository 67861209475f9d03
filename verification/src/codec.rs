//! The trusted boundary to the two text codecs.
//!
//! Decoding TOML and JSON text is done by the `toml` and `serde_json`
//! crates. This module declares the outside types involved, gives their
//! results and contents names that contracts can speak about, and wraps the
//! handful of calls the library makes. Everything else in the crate is
//! verified against the contracts stated here.

use vstd::prelude::*;

verus! {

#[verifier::external_type_specification]
#[verifier::external_body]
#[verifier::reject_recursive_types(K)]
#[verifier::reject_recursive_types(V)]
pub struct ExTomlMap<K, V>(toml::map::Map<K, V>);

#[verifier::external_type_specification]
#[verifier::external_body]
pub struct ExTomlValue(toml::Value);

#[verifier::external_type_specification]
#[verifier::external_body]
pub struct ExTomlDeError(toml::de::Error);

#[verifier::external_type_specification]
#[verifier::external_body]
pub struct ExJsonValue(serde_json::Value);

#[verifier::external_type_specification]
#[verifier::external_body]
pub struct ExJsonError(serde_json::Error);

/// What parsing the text as a TOML document gives: nothing when the text is
/// not valid TOML, otherwise the document's top-level entries, each key
/// mapped to its integer value when the entry is a TOML integer and to
/// nothing otherwise.
pub uninterp spec fn toml_doc(s: Seq<char>) -> Option<Map<Seq<char>, Option<i64>>>;

/// The top-level entries a TOML table holds, modeled as for [`toml_doc`].
pub uninterp spec fn toml_table_entries(t: toml::Table) -> Map<Seq<char>, Option<i64>>;

/// The integer a TOML value holds, when it is a TOML integer.
pub uninterp spec fn toml_value_int(v: toml::Value) -> Option<i64>;

/// Relies on `toml::from_str::<toml::Table>`: parsing is a function of the
/// text alone; it succeeds exactly on valid TOML documents and returns their
/// top-level table.
#[verifier::external_body]
pub(crate) fn toml_parse_table(s: &str) -> (r: Result<toml::Table, toml::de::Error>)
    ensures
        r is Ok <==> toml_doc(s@) is Some,
        r matches Ok(t) ==> Some(toml_table_entries(t)) == toml_doc(s@),
{
    toml::from_str::<toml::Table>(s)
}

/// Relies on `toml::map::Map::get`: returns the value at the key exactly
/// when the table contains the key.
#[verifier::external_body]
pub(crate) fn toml_table_get<'a>(t: &'a toml::Table, key: &str) -> (r: Option<&'a toml::Value>)
    ensures
        r is Some <==> toml_table_entries(*t).contains_key(key@),
        r matches Some(v) ==> toml_value_int(*v) == toml_table_entries(*t)[key@],
{
    t.get(key)
}

/// Relies on `toml::Value::as_integer`: returns the held integer exactly
/// when the value is a TOML integer.
#[verifier::external_body]
pub(crate) fn toml_value_as_integer(v: &toml::Value) -> (r: Option<i64>)
    ensures
        r == toml_value_int(*v),
{
    v.as_integer()
}

/// Relies on the `Display` rendering of `toml::de::Error` to describe the
/// decoding failure; nothing is assumed of the rendered text.
#[verifier::external_body]
pub(crate) fn toml_error_text(e: &toml::de::Error) -> (r: String) {
    e.to_string()
}

/// What parsing the text as JSON gives: nothing when the text is not valid
/// JSON, otherwise the members of the root value, each key mapped to its
/// value's integer representation when that member is an integer number
/// fitting `i64` and to nothing otherwise. A root that is not an object has
/// no members.
pub uninterp spec fn json_doc(s: Seq<char>) -> Option<Map<Seq<char>, Option<i64>>>;

/// The members a JSON value holds, modeled as for [`json_doc`].
pub uninterp spec fn json_members(v: serde_json::Value) -> Map<Seq<char>, Option<i64>>;

/// The integer a JSON value holds, when it is an integer number fitting
/// `i64`.
pub uninterp spec fn json_value_int(v: serde_json::Value) -> Option<i64>;

/// Relies on `serde_json::from_str::<serde_json::Value>`: parsing is a
/// function of the text alone; it succeeds exactly on valid JSON text and
/// returns the root value.
#[verifier::external_body]
pub(crate) fn json_parse_value(s: &str) -> (r: Result<serde_json::Value, serde_json::Error>)
    ensures
        r is Ok <==> json_doc(s@) is Some,
        r matches Ok(v) ==> Some(json_members(v)) == json_doc(s@),
{
    serde_json::from_str::<serde_json::Value>(s)
}

/// Relies on `serde_json::Value::get` with a string index: returns the
/// member at the key exactly when the value is an object containing the key.
#[verifier::external_body]
pub(crate) fn json_value_get<'a>(v: &'a serde_json::Value, key: &str) -> (r: Option<
    &'a serde_json::Value,
>)
    ensures
        r is Some <==> json_members(*v).contains_key(key@),
        r matches Some(m) ==> json_value_int(*m) == json_members(*v)[key@],
{
    v.get(key)
}

/// Relies on `serde_json::Value::as_i64`: returns the held integer exactly
/// when the value is an integer number fitting `i64`.
#[verifier::external_body]
pub(crate) fn json_value_as_i64(v: &serde_json::Value) -> (r: Option<i64>)
    ensures
        r == json_value_int(*v),
{
    v.as_i64()
}

/// Relies on the `Display` rendering of `serde_json::Error` to describe the
/// decoding failure; nothing is assumed of the rendered text.
#[verifier::external_body]
pub(crate) fn json_error_text(e: &serde_json::Error) -> (r: String) {
    e.to_string()
}

} // verus!

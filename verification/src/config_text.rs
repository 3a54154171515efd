//! The boundary to the TOML parser that reads package configurations.
//! Parsing is deterministic, so the string-valued entries of the document a
//! text denotes get a name, `toml_strs`; a parsed table's string entries are
//! named `table_strs`; the wrappers below tie the two together.

use vstd::prelude::*;

verus! {

#[verifier::external_type_specification]
#[verifier::external_body]
#[verifier::reject_recursive_types(K)]
#[verifier::reject_recursive_types(V)]
pub struct ExTomlMap<K, V>(toml::map::Map<K, V>);

#[verifier::external_type_specification]
#[verifier::external_body]
pub struct ExTomlValue(toml::Value);

#[verifier::external_type_specification]
#[verifier::external_body]
pub struct ExTomlDeError(toml::de::Error);

/// The string-valued top-level entries of the TOML document that a text
/// denotes, or nothing when the text is not a valid TOML document.
pub uninterp spec fn toml_strs(s: Seq<char>) -> Option<Map<Seq<char>, Seq<char>>>;

/// The string-valued top-level entries that a parsed table holds.
pub uninterp spec fn table_strs(t: toml::Table) -> Map<Seq<char>, Seq<char>>;

/// Relies on `toml::from_str::<toml::Table>`: parsing is a function of the
/// text alone; it succeeds exactly on valid TOML documents and returns the
/// document's top-level table.
#[verifier::external_body]
pub(crate) fn parse_toml_table(s: &str) -> (r: Result<toml::Table, toml::de::Error>)
    ensures
        r is Ok <==> toml_strs(s@) is Some,
        (r matches Ok(t) ==> (toml_strs(s@) matches Some(m) && table_strs(t) == m)),
{
    toml::from_str(s)
}

/// Relies on `toml::map::Map::get` and `toml::Value::as_str`: yields the
/// string stored under the key exactly when the table holds a string there.
#[verifier::external_body]
pub(crate) fn table_get_str(t: &toml::Table, key: &str) -> (r: Option<String>)
    ensures
        r is Some <==> table_strs(*t).dom().contains(key@),
        (r matches Some(v) ==> v@ == table_strs(*t)[key@]),
{
    match t.get(key) {
        Some(v) => v.as_str().map(|x| x.to_owned()),
        None => None,
    }
}

/// The diagnostic text that a parse error displays as; the display is a
/// function of the error value alone.
pub uninterp spec fn toml_error_text(e: toml::de::Error) -> Seq<char>;

/// Relies on the `Display` impl of `toml::de::Error` for the diagnostic text.
#[verifier::external_body]
pub(crate) fn toml_error_message(e: &toml::de::Error) -> (r: String)
    ensures
        r@ == toml_error_text(*e),
{
    e.to_string()
}

} // verus!

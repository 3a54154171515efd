//! Package metadata: the four required string keys of a package
//! configuration, and the verified parser from configuration text to
//! `FilterMeta`.

use vstd::prelude::*;
use crate::config_text::{parse_toml_table, table_get_str, toml_error_message, toml_strs};
use crate::errors::LoadError;

verus! {

/// Descriptive metadata of one filter package, read from its configuration.
#[derive(Debug)]
pub struct FilterMeta {
    pub name: String,
    pub description: String,
    pub author: String,
    /// Relative filename of the script source within the package directory.
    pub entrypoint: String,
}

/// The mathematical value of a `FilterMeta`.
pub ghost struct MetaV {
    pub name: Seq<char>,
    pub description: Seq<char>,
    pub author: Seq<char>,
    pub entrypoint: Seq<char>,
}

impl View for FilterMeta {
    type V = MetaV;

    open spec fn view(&self) -> MetaV {
        MetaV {
            name: self.name@,
            description: self.description@,
            author: self.author@,
            entrypoint: self.entrypoint@,
        }
    }
}

/// What parsing a configuration text yields: the values of the four required
/// keys when the text is a valid TOML document holding a string under each,
/// and nothing otherwise.
pub open spec fn meta_spec(s: Seq<char>) -> Option<MetaV> {
    match toml_strs(s) {
        Option::None => Option::None,
        Option::Some(m) => if m.dom().contains("name"@) && m.dom().contains("description"@)
            && m.dom().contains("author"@) && m.dom().contains("entrypoint"@) {
            Option::Some(
                (MetaV {
                    name: m["name"@],
                    description: m["description"@],
                    author: m["author"@],
                    entrypoint: m["entrypoint"@],
                }),
            )
        } else {
            Option::None
        },
    }
}

impl FilterMeta {
    /// Parses a package configuration. Succeeds exactly when the text is a
    /// valid TOML document with a string under each required key; any failure
    /// is a `MetaParseError` carrying its cause.
    pub fn parse(config: &str) -> (r: Result<FilterMeta, LoadError>)
        ensures
            r is Ok <==> meta_spec(config@) is Some,
            (r matches Ok(m) ==> (meta_spec(config@) matches Some(v) && m@ == v)),
            (r matches Err(e) ==> e matches LoadError::MetaParseError(_)),
    {
        let table = match parse_toml_table(config) {
            Ok(t) => t,
            Err(e) => {
                return Err(LoadError::MetaParseError(toml_error_message(&e)));
            },
        };
        let name = match table_get_str(&table, "name") {
            Some(s) => s,
            None => {
                return Err(LoadError::MetaParseError(String::from_str("missing key: name")));
            },
        };
        let description = match table_get_str(&table, "description") {
            Some(s) => s,
            None => {
                return Err(
                    LoadError::MetaParseError(String::from_str("missing key: description")),
                );
            },
        };
        let author = match table_get_str(&table, "author") {
            Some(s) => s,
            None => {
                return Err(LoadError::MetaParseError(String::from_str("missing key: author")));
            },
        };
        let entrypoint = match table_get_str(&table, "entrypoint") {
            Some(s) => s,
            None => {
                return Err(
                    LoadError::MetaParseError(String::from_str("missing key: entrypoint")),
                );
            },
        };
        Ok(FilterMeta { name, description, author, entrypoint })
    }
}

} // verus!

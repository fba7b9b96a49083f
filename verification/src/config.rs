//! The configuration aggregate and the single-attempt read/parse step.

use vstd::prelude::*;

use crate::error::{ConfigError, IoCause};
use crate::toml_doc;
use crate::toml_doc::{table_entry, table_of, value_str, value_table};

verus! {

/// The parsed structure of a configuration document: an immutable aggregate
/// of independently-owned sections. Every section is default-constructible,
/// so "no file present" still yields a fully-formed configuration.
#[derive(Debug)]
pub struct Config {
    /// Settings shared by multiple components.
    pub common: crate::common::Config,
    /// Settings consumed by query-expansion tooling.
    pub macros: crate::macros::Config,
    /// Settings consumed by migration tooling.
    pub migrate: crate::migrate::Config,
}

impl Config {
    /// The configuration used when no document contributes any value.
    pub open spec fn spec_default() -> Config {
        Config {
            common: crate::common::Config::spec_default(),
            macros: crate::macros::Config::spec_default(),
            migrate: crate::migrate::Config::spec_default(),
        }
    }
}

impl Default for Config {
    fn default() -> (r: Self)
        ensures
            r == Config::spec_default(),
    {
        Config {
            common: Default::default(),
            macros: Default::default(),
            migrate: Default::default(),
        }
    }
}

impl Clone for Config {
    fn clone(&self) -> (r: Self)
        ensures
            r == *self,
    {
        Config {
            common: self.common.clone(),
            macros: self.macros.clone(),
            migrate: self.migrate.clone(),
        }
    }
}

/// The character sequences of an optional owned string.
pub open spec fn opt_str_view(o: Option<String>) -> Option<Seq<char>> {
    match o {
        Some(s) => Some(s@),
        None => None,
    }
}

/// Whether the document accepts a lookup of `key` inside the section named
/// `section`: an absent section or an absent key is fine (the default will be
/// used), but a section that is not a table, or a key whose value is not a
/// string, is a schema violation.
pub open spec fn spec_field_ok(
    t: toml::map::Map<String, toml::Value>,
    section: Seq<char>,
    key: Seq<char>,
) -> bool {
    match table_entry(t, section) {
        None => true,
        Some(v) => match value_table(v) {
            None => false,
            Some(st) => match table_entry(st, key) {
                None => true,
                Some(fv) => value_str(fv) is Some,
            },
        },
    }
}

/// The string under `section.key` in the document, or `None` when the section
/// or the key is absent (meaningful when `spec_field_ok` holds).
pub open spec fn spec_field(
    t: toml::map::Map<String, toml::Value>,
    section: Seq<char>,
    key: Seq<char>,
) -> Option<Seq<char>> {
    match table_entry(t, section) {
        None => None,
        Some(v) => match value_table(v) {
            None => None,
            Some(st) => match table_entry(st, key) {
                None => None,
                Some(fv) => value_str(fv),
            },
        },
    }
}

/// Whether the document's top-level table deserializes into [`Config`]: every
/// known field must either be absent or have the expected shape. Unknown keys
/// are ignored.
pub open spec fn table_accepted(t: toml::map::Map<String, toml::Value>) -> bool {
    &&& spec_field_ok(t, "common"@, "database-url-var"@)
    &&& spec_field_ok(t, "macros"@, "datetime-crate"@)
    &&& spec_field_ok(t, "migrate"@, "migrations-dir"@)
    &&& spec_field_ok(t, "migrate"@, "table-name"@)
}

/// How a configuration relates to the document it was parsed from: each field
/// equals the document's value where the document specifies one, and is the
/// default (absent) otherwise.
pub open spec fn config_matches_table(c: Config, t: toml::map::Map<String, toml::Value>) -> bool {
    &&& opt_str_view(c.common.database_url_var) == spec_field(t, "common"@, "database-url-var"@)
    &&& opt_str_view(c.macros.datetime_crate) == spec_field(t, "macros"@, "datetime-crate"@)
    &&& opt_str_view(c.migrate.migrations_dir) == spec_field(t, "migrate"@, "migrations-dir"@)
    &&& opt_str_view(c.migrate.table_name) == spec_field(t, "migrate"@, "table-name"@)
}

/// What a single resolve-free read/parse attempt must return, for every
/// combination of read outcome and parsing capability:
/// - a read failure denoting absence yields `NotFound` with the path;
/// - any other read failure yields `Io` with the path and the cause;
/// - a successful read with parsing support switched off yields
///   `ParseDisabled` with the path;
/// - text that is not valid TOML, or that violates the schema, yields `Parse`
///   with the path;
/// - otherwise the attempt succeeds with a configuration whose fields are the
///   document's values where specified and the defaults where not.
pub open spec fn spec_read_outcome(
    path: String,
    read: Result<String, IoCause>,
    parse_enabled: bool,
    r: Result<Config, ConfigError>,
) -> bool {
    match read {
        Err(cause) => if cause.not_found {
            r == Result::<Config, ConfigError>::Err((ConfigError::NotFound { path }))
        } else {
            r == Result::<Config, ConfigError>::Err((ConfigError::Io { path, cause }))
        },
        Ok(text) => if !parse_enabled {
            r == Result::<Config, ConfigError>::Err((ConfigError::ParseDisabled { path }))
        } else {
            match table_of(text@) {
                None => r matches Err(e) && e matches ConfigError::Parse { path: p, .. }
                    && p == path,
                Some(t) => if table_accepted(t) {
                    r matches Ok(c) && config_matches_table(c, t)
                } else {
                    r matches Err(e) && e matches ConfigError::Parse { path: p, .. } && p == path
                },
            }
        },
    }
}

impl Config {
    /// Read one optional string field of the document, reporting a schema
    /// violation as `Err` with a diagnostic message.
    fn field_str(
        t: &toml::map::Map<String, toml::Value>,
        section: &str,
        key: &str,
    ) -> (r: Result<Option<String>, String>)
        ensures
            r is Ok <==> spec_field_ok(*t, section@, key@),
            r matches Ok(o) ==> opt_str_view(o) == spec_field(*t, section@, key@),
    {
        match toml_doc::table_get(t, section) {
            None => Ok(None),
            Some(v) => match toml_doc::value_as_table(v) {
                None => Err("expected the section to be a table".to_owned()),
                Some(st) => match toml_doc::table_get(st, key) {
                    None => Ok(None),
                    Some(fv) => match toml_doc::value_as_str(fv) {
                        None => Err("expected the field to be a string".to_owned()),
                        Some(s) => Ok(Some(s)),
                    },
                },
            },
        }
    }

    /// Deserialize the document's top-level table, filling every field the
    /// document does not specify with its default.
    pub fn from_table(t: &toml::map::Map<String, toml::Value>) -> (r: Result<Config, String>)
        ensures
            r is Ok <==> table_accepted(*t),
            r matches Ok(c) ==> config_matches_table(c, *t),
    {
        let database_url_var = match Self::field_str(t, "common", "database-url-var") {
            Ok(o) => o,
            Err(m) => {
                return Err(m);
            },
        };
        let datetime_crate = match Self::field_str(t, "macros", "datetime-crate") {
            Ok(o) => o,
            Err(m) => {
                return Err(m);
            },
        };
        let migrations_dir = match Self::field_str(t, "migrate", "migrations-dir") {
            Ok(o) => o,
            Err(m) => {
                return Err(m);
            },
        };
        let table_name = match Self::field_str(t, "migrate", "table-name") {
            Ok(o) => o,
            Err(m) => {
                return Err(m);
            },
        };
        Ok(Config {
            common: crate::common::Config { database_url_var },
            macros: crate::macros::Config { datetime_crate },
            migrate: crate::migrate::Config { migrations_dir, table_name },
        })
    }

    /// Classify the outcome of reading the candidate file at `path` and, when
    /// the read succeeded and parsing support is on, parse the text.
    ///
    /// The caller performs the raw read and hands in its outcome; this
    /// function applies the taxonomy's classification rule uniformly and
    /// never panics.
    pub fn read_from(
        path: String,
        read: Result<String, IoCause>,
        parse_enabled: bool,
    ) -> (r: Result<Config, ConfigError>)
        ensures
            spec_read_outcome(path, read, parse_enabled, r),
    {
        let text = match read {
            Ok(t) => t,
            Err(cause) => {
                return Err(ConfigError::from_io(path, cause));
            },
        };
        if !parse_enabled {
            return Err(ConfigError::ParseDisabled { path });
        }
        match toml_doc::parse_table(text.as_str()) {
            Err(e) => {
                let message = toml_doc::describe_parse_error(&e);
                Err(ConfigError::Parse { path, message })
            },
            Ok(t) => match Config::from_table(&t) {
                Err(message) => Err(ConfigError::Parse { path, message }),
                Ok(c) => Ok(c),
            },
        }
    }
}

} // verus!

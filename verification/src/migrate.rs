//! The configuration section for migration tooling.

use vstd::prelude::*;

verus! {

/// Settings consumed by migration tooling. Every field has a default, so an
/// absent section (or an absent file) still yields a fully-formed value.
#[derive(Debug)]
pub struct Config {
    /// Directory holding the migration files, when the document overrides the
    /// conventional location.
    pub migrations_dir: Option<String>,
    /// Name of the table recording applied migrations, when the document
    /// overrides the conventional name.
    pub table_name: Option<String>,
}

impl Config {
    /// The section value used when the document does not mention the section.
    pub open spec fn spec_default() -> Config {
        Config { migrations_dir: None, table_name: None }
    }
}

impl Default for Config {
    fn default() -> (r: Self)
        ensures
            r == Config::spec_default(),
    {
        Config { migrations_dir: None, table_name: None }
    }
}

impl Clone for Config {
    fn clone(&self) -> (r: Self)
        ensures
            r == *self,
    {
        Config {
            migrations_dir: match &self.migrations_dir {
                Some(s) => Some(s.clone()),
                None => None,
            },
            table_name: match &self.table_name {
                Some(s) => Some(s.clone()),
                None => None,
            },
        }
    }
}

} // verus!

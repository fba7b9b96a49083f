//! The configuration section shared by multiple downstream components.

use vstd::prelude::*;

verus! {

/// Settings shared by multiple components. Every field has a default, so an
/// absent section (or an absent file) still yields a fully-formed value.
#[derive(Debug)]
pub struct Config {
    /// Name of the environment variable holding the database URL, when the
    /// document overrides the conventional one.
    pub database_url_var: Option<String>,
}

impl Config {
    /// The section value used when the document does not mention the section.
    pub open spec fn spec_default() -> Config {
        Config { database_url_var: None }
    }
}

impl Default for Config {
    fn default() -> (r: Self)
        ensures
            r == Config::spec_default(),
    {
        Config { database_url_var: None }
    }
}

impl Clone for Config {
    fn clone(&self) -> (r: Self)
        ensures
            r == *self,
    {
        Config {
            database_url_var: match &self.database_url_var {
                Some(s) => Some(s.clone()),
                None => None,
            },
        }
    }
}

} // verus!

//! The configuration section for query-expansion tooling.

use vstd::prelude::*;

verus! {

/// Settings consumed by query-expansion tooling. Every field has a default,
/// so an absent section (or an absent file) still yields a fully-formed value.
#[derive(Debug)]
pub struct Config {
    /// Name of the crate the tooling should prefer for date/time values, when
    /// the document overrides the conventional choice.
    pub datetime_crate: Option<String>,
}

impl Config {
    /// The section value used when the document does not mention the section.
    pub open spec fn spec_default() -> Config {
        Config { datetime_crate: None }
    }
}

impl Default for Config {
    fn default() -> (r: Self)
        ensures
            r == Config::spec_default(),
    {
        Config { datetime_crate: None }
    }
}

impl Clone for Config {
    fn clone(&self) -> (r: Self)
        ensures
            r == *self,
    {
        Config {
            datetime_crate: match &self.datetime_crate {
                Some(s) => Some(s.clone()),
                None => None,
            },
        }
    }
}

} // verus!

//! The closed taxonomy of configuration-loading failures.

use vstd::prelude::*;
use vstd::string::StringExecFns;

verus! {

/// The diagnostic line that [`ConfigError::describe`] renders for an error:
/// every variant names what went wrong, and every variant that follows a
/// resolved candidate path spells that path out.
pub open spec fn spec_describe(e: ConfigError) -> Seq<char> {
    match e {
        ConfigError::Env { message } => "environment value must be set and valid: "@ + message@,
        ConfigError::NotFound { path } => "config file "@ + path@ + " not found"@,
        ConfigError::Io { path, cause } => "error reading config file "@ + path@ + ": "@
            + cause.message@,
        ConfigError::Parse { path, message } => "error parsing config file "@ + path@ + ": "@
            + message@,
        ConfigError::ParseDisabled { path } => "found config file at "@ + path@
            + " but parsing support is not compiled in"@,
    }
}

/// What the loader needs to know about a failed filesystem read: whether the
/// failure specifically means "the entity does not exist", plus a rendered
/// description kept for diagnostics. The caller that performs the read builds
/// one of these from the raw I/O error it observed.
#[derive(Debug)]
pub struct IoCause {
    /// True exactly when the underlying failure denotes non-existence of the
    /// candidate path.
    pub not_found: bool,
    /// Human-readable rendering of the underlying failure.
    pub message: String,
}

/// Error returned from the loading operations of [`crate::config::Config`].
///
/// Every variant that follows a resolved candidate path carries that path, so
/// a diagnostic never has to re-derive which file was involved.
#[derive(Debug)]
pub enum ConfigError {
    /// A required environment or context value needed to build the candidate
    /// path was absent or invalid; no filesystem access was attempted.
    Env {
        /// Rendered description of the missing or invalid value.
        message: String,
    },
    /// No configuration file exists at the candidate path. Not necessarily
    /// fatal: callers may substitute a default configuration.
    NotFound {
        /// The candidate path that was attempted.
        path: String,
    },
    /// The candidate path exists but reading it failed for a reason other
    /// than non-existence.
    Io {
        /// The candidate path that was attempted.
        path: String,
        /// The classified read failure.
        cause: IoCause,
    },
    /// The file was read but its contents could not be deserialized into the
    /// configuration schema. The message retains the parser's positional
    /// (line/column) context.
    Parse {
        /// The candidate path that was attempted.
        path: String,
        /// Rendered parse diagnostic, including position information.
        message: String,
    },
    /// A configuration file exists at the candidate path, but this loader was
    /// asked to run with parsing support switched off.
    ParseDisabled {
        /// The candidate path that was attempted.
        path: String,
    },
}

impl ConfigError {
    /// Classify a raw read failure: non-existence becomes [`ConfigError::NotFound`],
    /// every other failure becomes [`ConfigError::Io`]. Every path that turns an
    /// I/O failure into a domain error goes through this rule, so "file absent"
    /// stays distinguishable from "file present but unreadable".
    pub fn from_io(path: String, error: IoCause) -> (r: Self)
        ensures
            error.not_found ==> r == (ConfigError::NotFound { path }),
            !error.not_found ==> r == (ConfigError::Io { path, cause: error }),
    {
        if error.not_found {
            ConfigError::NotFound { path }
        } else {
            ConfigError::Io { path, cause: error }
        }
    }

    /// The path that was attempted, exactly when this error means the file
    /// was not found; `None` for every other kind. Lets callers treat absence
    /// as non-fatal without matching the whole taxonomy.
    pub fn not_found_path(&self) -> (r: Option<&String>)
        ensures
            self matches ConfigError::NotFound { path } ==> r == Some(path),
            !(self matches ConfigError::NotFound { .. }) ==> r is None,
    {
        if let ConfigError::NotFound { path } = self {
            Some(path)
        } else {
            None
        }
    }

    /// Render this error as a diagnostic line, in place of a `Display` impl.
    /// Parse diagnostics keep the positional context their message carries.
    pub fn describe(&self) -> (r: String)
        ensures
            r@ == spec_describe(*self),
    {
        match self {
            ConfigError::Env { message } => "environment value must be set and valid: ".to_owned()
                .concat(message.as_str()),
            ConfigError::NotFound { path } => "config file ".to_owned().concat(path.as_str())
                .concat(" not found"),
            ConfigError::Io { path, cause } => "error reading config file ".to_owned().concat(
                path.as_str(),
            ).concat(": ").concat(cause.message.as_str()),
            ConfigError::Parse { path, message } => "error parsing config file ".to_owned().concat(
                path.as_str(),
            ).concat(": ").concat(message.as_str()),
            ConfigError::ParseDisabled { path } => "found config file at ".to_owned().concat(
                path.as_str(),
            ).concat(" but parsing support is not compiled in"),
        }
    }
}

} // verus!

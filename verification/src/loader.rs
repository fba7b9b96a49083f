//! The write-once cache cell and the guarded loader entry points.
//!
//! Each entry point checks the cache first; on a miss it resolves a candidate
//! path through the caller-supplied strategy, asks the caller-supplied read
//! primitive for the file's contents, classifies the outcome, parses, and
//! publishes a success. The first successful attempt wins: once the cell is
//! populated, later calls return the stored configuration and invoke neither
//! the strategy nor the read primitive. A failed attempt leaves the cell
//! untouched, so a later call — possibly with a different strategy — may
//! still succeed.
//!
//! The strategy and the read primitive are consumed at most once per attempt,
//! and must not re-enter the loader on the same cache.

use vstd::prelude::*;

use crate::config::{spec_read_outcome, Config};
use crate::error::{ConfigError, IoCause};

verus! {

/// The write-once container for the process's single [`Config`].
///
/// Once populated it is never overwritten or cleared; a failed initialization
/// attempt leaves it empty, so a later attempt — possibly with a different
/// path strategy — may still succeed.
pub struct ConfigCache {
    cfg: Option<Config>,
}

impl ConfigCache {
    /// The stored configuration, or `None` while uninitialized.
    pub closed spec fn loaded(&self) -> Option<Config> {
        self.cfg
    }

    /// An empty, uninitialized cell.
    pub fn new() -> (r: Self)
        ensures
            r.loaded() is None,
    {
        ConfigCache { cfg: None }
    }

    /// The stored configuration, if one has been published.
    pub fn get(&self) -> (r: Option<&Config>)
        ensures
            r matches Some(c) ==> self.loaded() == Some(*c),
            r is Some <==> self.loaded() is Some,
    {
        self.cfg.as_ref()
    }

    /// Publish a configuration into an empty cell.
    pub fn store(&mut self, c: Config)
        requires
            old(self).loaded() is None,
        ensures
            final(self).loaded() == Some(c),
    {
        self.cfg = Some(c);
    }
}

/// Whether a full resolve/read/parse attempt against the given collaborators
/// can fail with `e`: either the path strategy itself can produce `e`, or the
/// strategy can produce a path whose read outcome forces `e` under the
/// single-attempt contract [`spec_read_outcome`].
pub open spec fn attempt_err<F, R>(
    make_path: F,
    read_file: R,
    parse_enabled: bool,
    e: ConfigError,
) -> bool where
    F: FnOnce() -> Result<String, ConfigError>,
    R: FnOnce(String) -> Result<String, IoCause>,
 {
    ||| call_ensures(make_path, (), Result::Err(e))
    ||| (exists|p: String, rd: Result<String, IoCause>|
        call_ensures(make_path, (), Result::Ok(p)) && #[trigger] call_ensures(
            read_file,
            (p,),
            rd,
        ) && spec_read_outcome(p, rd, parse_enabled, Result::Err(e)))
}

/// Whether a full resolve/read/parse attempt against the given collaborators
/// can succeed with `c`: the strategy can produce a path whose read outcome
/// yields `c` under the single-attempt contract [`spec_read_outcome`].
pub open spec fn attempt_ok<F, R>(
    make_path: F,
    read_file: R,
    parse_enabled: bool,
    c: Config,
) -> bool where
    F: FnOnce() -> Result<String, ConfigError>,
    R: FnOnce(String) -> Result<String, IoCause>,
 {
    exists|p: String, rd: Result<String, IoCause>|
        call_ensures(make_path, (), Result::Ok(p)) && #[trigger] call_ensures(
            read_file,
            (p,),
            rd,
        ) && spec_read_outcome(p, rd, parse_enabled, Result::Ok(c))
}

/// Whether an attempt against the given collaborators can fail with a
/// `NotFound` error — the one failure the convenience entry point treats as
/// non-fatal.
pub open spec fn attempt_not_found<F, R>(make_path: F, read_file: R, parse_enabled: bool) -> bool
    where
    F: FnOnce() -> Result<String, ConfigError>,
    R: FnOnce(String) -> Result<String, IoCause>,
 {
    exists|e: ConfigError|
        #[trigger] attempt_err(make_path, read_file, parse_enabled, e) && e matches
            ConfigError::NotFound { .. }
}

impl Config {
    /// The fallible loader: the cached configuration if one is published —
    /// first caller wins, the strategy is ignored and nothing is read — or
    /// else the outcome of one full resolve/read/parse attempt, published on
    /// success and returned without touching the cache on failure.
    ///
    /// `make_path` is the caller's path-resolution strategy; it fails before
    /// any read is attempted (e.g. when a required environment value is
    /// absent). `read_file` is the caller's filesystem read primitive, taking
    /// the candidate path and yielding the file's text or a classified
    /// failure. Each is invoked at most once, and only on a cache miss.
    pub fn try_get_with<F, R>(
        cache: &mut ConfigCache,
        make_path: F,
        read_file: R,
        parse_enabled: bool,
    ) -> (r: Result<Config, ConfigError>) where
        F: FnOnce() -> Result<String, ConfigError>,
        R: FnOnce(String) -> Result<String, IoCause>,

        requires
            call_requires(make_path, ()),
            forall|p: String|
                call_ensures(make_path, (), Result::Ok(p)) ==> #[trigger] call_requires(
                    read_file,
                    (p,),
                ),
        ensures
            old(cache).loaded() matches Some(c) ==> *final(cache) == *old(cache) && r
                == Result::<Config, ConfigError>::Ok(c),
            old(cache).loaded() is None ==> (r matches Ok(c) ==> final(cache).loaded() == Some(c)
                && attempt_ok(make_path, read_file, parse_enabled, c)),
            old(cache).loaded() is None ==> (r matches Err(e) ==> *final(cache) == *old(cache)
                && attempt_err(make_path, read_file, parse_enabled, e)),
    {
        if let Some(c) = cache.get() {
            return Ok(c.clone());
        }
        let path = match make_path() {
            Ok(p) => p,
            Err(e) => {
                return Err(e);
            },
        };
        let read = read_file(path.clone());
        match Config::read_from(path, read, parse_enabled) {
            Ok(c) => {
                cache.store(c.clone());
                Ok(c)
            },
            Err(e) => Err(e),
        }
    }

    /// The convenience loader for callers that treat a missing file as
    /// acceptable: delegates to the fallible loader, substitutes and
    /// publishes the default configuration exactly on `NotFound`, and
    /// returns every other failure untouched — substituting a default for a
    /// present-but-unusable file would silently hand downstream tooling a
    /// wrong configuration.
    pub fn from_crate<F, R>(
        cache: &mut ConfigCache,
        make_path: F,
        read_file: R,
        parse_enabled: bool,
    ) -> (r: Result<Config, ConfigError>) where
        F: FnOnce() -> Result<String, ConfigError>,
        R: FnOnce(String) -> Result<String, IoCause>,

        requires
            call_requires(make_path, ()),
            forall|p: String|
                call_ensures(make_path, (), Result::Ok(p)) ==> #[trigger] call_requires(
                    read_file,
                    (p,),
                ),
        ensures
            old(cache).loaded() matches Some(c) ==> *final(cache) == *old(cache) && r
                == Result::<Config, ConfigError>::Ok(c),
            r matches Ok(c) ==> final(cache).loaded() == Some(c),
            old(cache).loaded() is None ==> (r matches Ok(c) ==> attempt_ok(
                make_path,
                read_file,
                parse_enabled,
                c,
            ) || (c == Config::spec_default() && attempt_not_found(
                make_path,
                read_file,
                parse_enabled,
            ))),
            r matches Err(e) ==> !(e matches ConfigError::NotFound { .. }) && attempt_err(
                make_path,
                read_file,
                parse_enabled,
                e,
            ) && *final(cache) == *old(cache),
    {
        match Config::try_get_with(cache, make_path, read_file, parse_enabled) {
            Ok(c) => Ok(c),
            Err(e) => {
                if e.not_found_path().is_some() {
                    let d = Config::default();
                    cache.store(d.clone());
                    Ok(d)
                } else {
                    Err(e)
                }
            },
        }
    }

    /// The fallible loader with a strategy that unconditionally yields the
    /// given path, with no contextual lookup.
    pub fn try_from_path<R>(
        cache: &mut ConfigCache,
        path: String,
        read_file: R,
        parse_enabled: bool,
    ) -> (r: Result<Config, ConfigError>) where R: FnOnce(String) -> Result<String, IoCause>,
        requires
            call_requires(read_file, (path,)),
        ensures
            old(cache).loaded() matches Some(c) ==> *final(cache) == *old(cache) && r
                == Result::<Config, ConfigError>::Ok(c),
            old(cache).loaded() is None ==> (r matches Ok(c) ==> final(cache).loaded() == Some(c)
                && (exists|rd: Result<String, IoCause>|
                #[trigger] call_ensures(read_file, (path,), rd) && spec_read_outcome(
                    path,
                    rd,
                    parse_enabled,
                    Result::Ok(c),
                ))),
            old(cache).loaded() is None ==> (r matches Err(e) ==> *final(cache) == *old(cache)
                && (exists|rd: Result<String, IoCause>|
                #[trigger] call_ensures(read_file, (path,), rd) && spec_read_outcome(
                    path,
                    rd,
                    parse_enabled,
                    Result::Err(e),
                ))),
    {
        if let Some(c) = cache.get() {
            return Ok(c.clone());
        }
        let read = read_file(path.clone());
        match Config::read_from(path, read, parse_enabled) {
            Ok(c) => {
                cache.store(c.clone());
                Ok(c)
            },
            Err(e) => Err(e),
        }
    }

    /// The fallible loader against the conventional file name in the root of
    /// the crate being compiled. `manifest_dir` is the outcome of looking the
    /// build-root directory up in the environment: the candidate path is the
    /// conventional file name under that directory, and a failed lookup is
    /// reported as [`ConfigError::Env`] without attempting any read — unless
    /// the cache is already populated, in which case first caller wins and
    /// the lookup outcome is ignored.
    pub fn try_from_crate<R>(
        cache: &mut ConfigCache,
        manifest_dir: Result<String, String>,
        read_file: R,
        parse_enabled: bool,
    ) -> (r: Result<Config, ConfigError>) where R: FnOnce(String) -> Result<String, IoCause>,
        requires
            forall|p: String|
                (manifest_dir matches Ok(d) && p@ == d@ + "/sqlx.toml"@)
                    ==> #[trigger] call_requires(read_file, (p,)),
        ensures
            old(cache).loaded() matches Some(c) ==> *final(cache) == *old(cache) && r
                == Result::<Config, ConfigError>::Ok(c),
            old(cache).loaded() is None ==> (r matches Ok(c) ==> final(cache).loaded() == Some(c)
                && (exists|p: String, rd: Result<String, IoCause>|
                manifest_dir matches Ok(d) && p@ == d@ + "/sqlx.toml"@ && #[trigger] call_ensures(
                    read_file,
                    (p,),
                    rd,
                ) && spec_read_outcome(p, rd, parse_enabled, Result::Ok(c)))),
            old(cache).loaded() is None ==> (r matches Err(e) ==> *final(cache) == *old(cache) && (
            (manifest_dir matches Err(m) && e == (ConfigError::Env { message: m })) || (
            exists|p: String, rd: Result<String, IoCause>|
                manifest_dir matches Ok(d) && p@ == d@ + "/sqlx.toml"@ && #[trigger] call_ensures(
                    read_file,
                    (p,),
                    rd,
                ) && spec_read_outcome(p, rd, parse_enabled, Result::Err(e))))),
    {
        if let Some(c) = cache.get() {
            return Ok(c.clone());
        }
        match manifest_dir {
            Err(m) => Err(ConfigError::Env { message: m }),
            Ok(d) => {
                let path = d.concat("/sqlx.toml");
                Config::try_from_path(cache, path, read_file, parse_enabled)
            },
        }
    }

    /// The fallible loader against the conventional file name in the current
    /// working directory: sugar for [`Config::try_from_path`] with the
    /// literal candidate `sqlx.toml`, which the read primitive will resolve
    /// relative to the process's working directory.
    pub fn try_from_current_dir<R>(
        cache: &mut ConfigCache,
        read_file: R,
        parse_enabled: bool,
    ) -> (r: Result<Config, ConfigError>) where R: FnOnce(String) -> Result<String, IoCause>,
        requires
            forall|p: String| p@ == "sqlx.toml"@ ==> #[trigger] call_requires(read_file, (p,)),
        ensures
            old(cache).loaded() matches Some(c) ==> *final(cache) == *old(cache) && r
                == Result::<Config, ConfigError>::Ok(c),
            old(cache).loaded() is None ==> (r matches Ok(c) ==> final(cache).loaded() == Some(c)
                && (exists|p: String, rd: Result<String, IoCause>|
                p@ == "sqlx.toml"@ && #[trigger] call_ensures(read_file, (p,), rd)
                    && spec_read_outcome(p, rd, parse_enabled, Result::Ok(c)))),
            old(cache).loaded() is None ==> (r matches Err(e) ==> *final(cache) == *old(cache)
                && (exists|p: String, rd: Result<String, IoCause>|
                p@ == "sqlx.toml"@ && #[trigger] call_ensures(read_file, (p,), rd)
                    && spec_read_outcome(p, rd, parse_enabled, Result::Err(e)))),
    {
        let path = "sqlx.toml".to_owned();
        Config::try_from_path(cache, path, read_file, parse_enabled)
    }
}

} // verus!

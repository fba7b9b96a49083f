use sqlx_config::config::Config;
use sqlx_config::error::{ConfigError, IoCause};
use sqlx_config::loader::ConfigCache;

fn not_found_cause() -> IoCause {
    IoCause { not_found: true, message: String::from("entity not found") }
}

fn other_cause() -> IoCause {
    IoCause { not_found: false, message: String::from("permission denied") }
}

fn reads(text: &str) -> impl FnOnce(String) -> Result<String, IoCause> + '_ {
    move |_p: String| Ok(String::from(text))
}

const FULL_DOCUMENT: &str = "[common]\n\
database-url-var = \"MY_DATABASE_URL\"\n\
\n\
[macros]\n\
datetime-crate = \"chrono\"\n\
\n\
[migrate]\n\
migrations-dir = \"db/migrations\"\n\
table-name = \"_sqlx_migrations\"\n";

#[test]
fn full_document_fills_every_field() {
    let mut cache = ConfigCache::new();
    let c = Config::try_from_current_dir(&mut cache, reads(FULL_DOCUMENT), true)
        .expect("a valid document must load");
    assert_eq!(c.common.database_url_var.as_deref(), Some("MY_DATABASE_URL"));
    assert_eq!(c.macros.datetime_crate.as_deref(), Some("chrono"));
    assert_eq!(c.migrate.migrations_dir.as_deref(), Some("db/migrations"));
    assert_eq!(c.migrate.table_name.as_deref(), Some("_sqlx_migrations"));
}

#[test]
fn partial_document_defaults_the_rest() {
    let text = "[migrate]\ntable-name = \"custom_table\"\n";
    let mut cache = ConfigCache::new();
    let c = Config::try_from_current_dir(&mut cache, reads(text), true)
        .expect("a partial document is valid");
    assert_eq!(c.common.database_url_var, None);
    assert_eq!(c.macros.datetime_crate, None);
    assert_eq!(c.migrate.migrations_dir, None);
    assert_eq!(c.migrate.table_name.as_deref(), Some("custom_table"));
}

#[test]
fn empty_document_yields_the_default() {
    let mut cache = ConfigCache::new();
    let c = Config::try_from_current_dir(&mut cache, reads(""), true)
        .expect("an empty document is valid");
    let d = Config::default();
    assert_eq!(c.common.database_url_var, d.common.database_url_var);
    assert_eq!(c.macros.datetime_crate, d.macros.datetime_crate);
    assert_eq!(c.migrate.migrations_dir, d.migrate.migrations_dir);
    assert_eq!(c.migrate.table_name, d.migrate.table_name);
}

#[test]
fn unknown_keys_are_ignored() {
    let text = "unrelated = 1\n[migrate]\nextra = true\ntable-name = \"t\"\n";
    let mut cache = ConfigCache::new();
    let c = Config::try_from_current_dir(&mut cache, reads(text), true)
        .expect("unknown keys must not reject the document");
    assert_eq!(c.migrate.table_name.as_deref(), Some("t"));
}

#[test]
fn missing_file_reports_not_found_with_the_path() {
    let mut cache = ConfigCache::new();
    let r = Config::try_from_path(
        &mut cache,
        String::from("a/b/sqlx.toml"),
        |_p: String| -> Result<String, IoCause> { Err(not_found_cause()) },
        true,
    );
    match r {
        Err(ConfigError::NotFound { path }) => assert_eq!(path, "a/b/sqlx.toml"),
        other => panic!("expected NotFound, got {:?}", other.is_ok()),
    }
    assert!(cache.get().is_none());
}

#[test]
fn unreadable_file_reports_io_with_the_cause() {
    let mut cache = ConfigCache::new();
    let r = Config::try_from_path(
        &mut cache,
        String::from("sqlx.toml"),
        |_p: String| -> Result<String, IoCause> { Err(other_cause()) },
        true,
    );
    match r {
        Err(ConfigError::Io { path, cause }) => {
            assert_eq!(path, "sqlx.toml");
            assert!(!cause.not_found);
            assert_eq!(cause.message, "permission denied");
        }
        _ => panic!("expected Io"),
    }
    assert!(cache.get().is_none());
}

#[test]
fn invalid_syntax_reports_parse_with_position_and_does_not_poison() {
    let mut cache = ConfigCache::new();
    let r = Config::try_from_current_dir(&mut cache, reads("this is = not [ valid"), true);
    match r {
        Err(ConfigError::Parse { path, message }) => {
            assert_eq!(path, "sqlx.toml");
            assert!(message.contains("TOML parse error"));
            assert!(message.contains("line"));
        }
        _ => panic!("expected Parse"),
    }
    assert!(cache.get().is_none());

    // The cell was not poisoned: a corrected attempt still succeeds.
    let c = Config::try_from_current_dir(&mut cache, reads(FULL_DOCUMENT), true)
        .expect("the corrected attempt must succeed");
    assert_eq!(c.macros.datetime_crate.as_deref(), Some("chrono"));
    assert!(cache.get().is_some());
}

#[test]
fn wrong_shape_reports_parse() {
    let mut cache = ConfigCache::new();
    let r = Config::try_from_current_dir(&mut cache, reads("common = 5\n"), true);
    assert!(matches!(r, Err(ConfigError::Parse { .. })));

    let mut cache = ConfigCache::new();
    let r = Config::try_from_current_dir(
        &mut cache,
        reads("[migrate]\ntable-name = 7\n"),
        true,
    );
    assert!(matches!(r, Err(ConfigError::Parse { .. })));
}

#[test]
fn disabled_parsing_reports_parse_disabled_only_for_existing_files() {
    // The file exists: its text is readable, but parsing support is off.
    let mut cache = ConfigCache::new();
    let r = Config::try_from_current_dir(&mut cache, reads(FULL_DOCUMENT), false);
    match r {
        Err(ConfigError::ParseDisabled { path }) => assert_eq!(path, "sqlx.toml"),
        _ => panic!("expected ParseDisabled"),
    }
    assert!(cache.get().is_none());

    // The file does not exist: absence wins over the disabled capability.
    let r = Config::try_from_current_dir(
        &mut cache,
        |_p: String| -> Result<String, IoCause> { Err(not_found_cause()) },
        false,
    );
    assert!(matches!(r, Err(ConfigError::NotFound { .. })));
}

#[test]
fn failing_strategy_reports_env_without_reading() {
    let mut cache = ConfigCache::new();
    let r = Config::try_get_with(
        &mut cache,
        || -> Result<String, ConfigError> {
            Err(ConfigError::Env { message: String::from("build-root variable is unset") })
        },
        |_p: String| -> Result<String, IoCause> { unreachable!("no read may be attempted") },
        true,
    );
    match r {
        Err(ConfigError::Env { message }) => {
            assert_eq!(message, "build-root variable is unset");
        }
        _ => panic!("expected Env"),
    }
    assert!(cache.get().is_none());
}

#[test]
fn first_caller_wins_and_later_strategies_are_ignored() {
    let mut cache = ConfigCache::new();
    let first = Config::try_from_current_dir(&mut cache, reads(FULL_DOCUMENT), true)
        .expect("the first call must succeed");

    // A later call with a different strategy returns the stored value and
    // invokes neither the strategy nor the read primitive.
    let second = Config::try_get_with(
        &mut cache,
        || -> Result<String, ConfigError> { unreachable!("the strategy may not run") },
        |_p: String| -> Result<String, IoCause> { unreachable!("no read may be attempted") },
        true,
    )
    .expect("a populated cache always answers");
    assert_eq!(first.common.database_url_var, second.common.database_url_var);
    assert_eq!(first.macros.datetime_crate, second.macros.datetime_crate);
    assert_eq!(first.migrate.migrations_dir, second.migrate.migrations_dir);
    assert_eq!(first.migrate.table_name, second.migrate.table_name);

    // The other entry points answer from the cache as well.
    let third = Config::try_from_path(
        &mut cache,
        String::from("elsewhere.toml"),
        |_p: String| -> Result<String, IoCause> { unreachable!("no read may be attempted") },
        true,
    )
    .expect("a populated cache always answers");
    assert_eq!(first.migrate.table_name, third.migrate.table_name);
}

#[test]
fn convenience_loader_substitutes_the_default_on_not_found() {
    let mut cache = ConfigCache::new();
    let c = Config::from_crate(
        &mut cache,
        || -> Result<String, ConfigError> { Ok(String::from("sqlx.toml")) },
        |_p: String| -> Result<String, IoCause> { Err(not_found_cause()) },
        true,
    )
    .expect("a missing file is acceptable here");
    let d = Config::default();
    assert_eq!(c.common.database_url_var, d.common.database_url_var);
    assert_eq!(c.macros.datetime_crate, d.macros.datetime_crate);
    assert_eq!(c.migrate.migrations_dir, d.migrate.migrations_dir);
    assert_eq!(c.migrate.table_name, d.migrate.table_name);
    // The default was published: later calls answer from the cache.
    assert!(cache.get().is_some());
}

#[test]
fn convenience_loader_propagates_fatal_errors() {
    let mut cache = ConfigCache::new();
    let r = Config::from_crate(
        &mut cache,
        || -> Result<String, ConfigError> { Ok(String::from("sqlx.toml")) },
        |_p: String| -> Result<String, IoCause> { Err(other_cause()) },
        true,
    );
    assert!(matches!(r, Err(ConfigError::Io { .. })));
    assert!(cache.get().is_none());

    let r = Config::from_crate(
        &mut cache,
        || -> Result<String, ConfigError> { Ok(String::from("sqlx.toml")) },
        reads("not { valid"),
        true,
    );
    assert!(matches!(r, Err(ConfigError::Parse { .. })));
    assert!(cache.get().is_none());
}

#[test]
fn crate_strategy_joins_the_manifest_dir() {
    let mut cache = ConfigCache::new();
    let r = Config::try_from_crate(
        &mut cache,
        Ok(String::from("/work/project")),
        |p: String| -> Result<String, IoCause> {
            assert_eq!(p, "/work/project/sqlx.toml");
            Err(not_found_cause())
        },
        true,
    );
    match r {
        Err(ConfigError::NotFound { path }) => assert_eq!(path, "/work/project/sqlx.toml"),
        _ => panic!("expected NotFound"),
    }
}

#[test]
fn crate_strategy_reports_env_when_the_lookup_failed() {
    let mut cache = ConfigCache::new();
    let r = Config::try_from_crate(
        &mut cache,
        Err(String::from("variable is unset")),
        |_p: String| -> Result<String, IoCause> { unreachable!("no read may be attempted") },
        true,
    );
    match r {
        Err(ConfigError::Env { message }) => assert_eq!(message, "variable is unset"),
        _ => panic!("expected Env"),
    }
    assert!(cache.get().is_none());

    // Once the cache is populated, the lookup outcome is ignored.
    let _ = Config::try_from_current_dir(&mut cache, reads(FULL_DOCUMENT), true)
        .expect("a valid document must load");
    let c = Config::try_from_crate(
        &mut cache,
        Err(String::from("variable is unset")),
        |_p: String| -> Result<String, IoCause> { unreachable!("no read may be attempted") },
        true,
    )
    .expect("a populated cache always answers");
    assert_eq!(c.macros.datetime_crate.as_deref(), Some("chrono"));
}

#[test]
fn duplicate_keys_report_parse() {
    let text = "[migrate]\ntable-name = \"a\"\ntable-name = \"b\"\n";
    let mut cache = ConfigCache::new();
    let r = Config::try_from_current_dir(&mut cache, reads(text), true);
    match r {
        Err(ConfigError::Parse { message, .. }) => {
            assert!(message.contains("TOML parse error"));
        }
        _ => panic!("expected Parse for a duplicate key"),
    }
    assert!(cache.get().is_none());
}

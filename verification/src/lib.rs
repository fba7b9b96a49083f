//! Lazy, fallible, idempotent loading of a single `sqlx.toml`-style
//! configuration document.
//!
//! The crate centers on a write-once [`loader::ConfigCache`] holding the one
//! [`config::Config`] a process ever uses, a closed [`error::ConfigError`]
//! taxonomy that classifies every way an attempt can fail, and loader entry
//! points that resolve a candidate path through a caller-supplied strategy,
//! classify the outcome of reading it, and parse the text as TOML.
//!
//! Reading the filesystem and the environment is the caller's part: the
//! loader receives the read primitive as a function value and is verified
//! against every outcome it can produce.

pub mod common;
pub mod config;
pub mod error;
pub mod loader;
pub mod macros;
pub mod migrate;
pub mod toml_doc;

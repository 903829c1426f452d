//! # convention-lint
//!
//! A file-naming convention linter, configurable through `Cargo.toml` metadata.
//!
//! The library holds the decisions of the linter, each with a proved contract:
//! which stems follow which naming convention, how convention names are parsed,
//! how include/exclude glob patterns select files, how the rules of a manifest
//! are resolved, and what the walk over a project does with each entry.

pub mod config;
pub mod convention;
pub mod error;
pub mod lint;
pub mod matcher;

pub use crate::convention::Convention;
pub use crate::error::Error;
pub use crate::lint::Violation;

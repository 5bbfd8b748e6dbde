//! Core of a container-build-file composer: it turns a declarative
//! specification into rendered build files by resolving reusable,
//! parameterized modules from local directories and pinned remote
//! repositories, validating their variable contracts, and composing
//! the rendered parts into output artifacts.
//!
//! Everything that decides or computes lives here with a contract;
//! file reads and writes, subprocess runs and environment lookups are
//! the caller's part, driven by the decision functions of this crate.

pub mod assignment;
pub mod builder;
pub mod compose;
pub mod error;
pub mod git;
pub mod module_config;
pub mod module_file;
pub mod paths;
pub mod source_info;
pub mod text;
pub mod yaml;
pub mod yardfile;

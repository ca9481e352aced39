//! Resolution of a project's context: its root directory, its identifier and
//! the directories that hold its configuration, cache and data.
//!
//! Everything here is a function of plain values. Reading the environment,
//! searching for a repository and reading files happen at the edge of a
//! program; their outcomes come in as `Environment`, `Discovery` and `IdFile`.
pub mod constants;
pub mod error;
pub mod exec;
pub mod export;
pub mod laws;
pub mod project;
pub mod text;


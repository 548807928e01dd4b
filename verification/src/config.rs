//! Configuration: what the configuration file holds, and the essentials
//! that a run extracts from it.

pub mod file;
pub mod runtime;
pub mod toml_merge;

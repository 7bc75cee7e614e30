//! Resolves a named project template to a local directory: catalogs of
//! templates with search and exact lookup, and the decisions of a cache of
//! repository snapshots that is keyed by content.

pub mod cache;
pub mod config;
pub mod error;
pub mod fetch;
pub mod find_result;
pub mod index;
pub mod remote_index;
pub mod repo_def;
pub mod resolve;
pub mod ro;
pub mod setup;
pub mod template;
pub mod text;
pub mod utils;

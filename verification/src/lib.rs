//! Validation of directory-based mod packages.
//!
//! A package is a directory holding a `mod.json` manifest, an optional
//! `description.md` file, and the content it ships. The library parses the
//! manifest, runs an ordered chain of checks (identity, game/platform
//! compatibility, capability paths, icon, dependency syntax, banned-content
//! scan) and, on success, returns the enriched record with derived capability
//! tags. A small planner builds the skeleton of a fresh, valid package.
//!
//! File reading and directory creation are left to the caller; the library
//! takes the manifest and description texts as values and queries the
//! filesystem only for existence and for the recursive extension scan.

pub mod error;
pub mod fsio;
pub mod json;
pub mod manifest;
pub mod pipeline;
pub mod rules;
pub mod scaffold;
pub mod text;


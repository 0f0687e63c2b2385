//! Engine-independent normalization of columnar query results.
//!
//! The crate turns typed, column-major result batches into a deterministic
//! textual matrix so that results from different SQL engines can be diffed
//! against a canonical expectation file.  It has two cooperating parts: a
//! type classifier that maps each column's physical type to a coarse logical
//! category (with a single-character tag for expectation files), and a result
//! normalizer that checks schema compatibility, canonicalizes every cell to a
//! stable string, and expands multi-line cells into synthetic rows.

pub mod column;
pub mod data;
pub mod expand;
pub mod error;
pub mod numeric;
pub mod runner;
pub mod text;
pub mod types;

//! Semantic navigation and hover for a pipeline description language embedded
//! in a key/value markup format.
//!
//! Documents define "pipe" (processing step) and "concept" (data shape)
//! tables.  Given a parsed document tree and a cursor position, this crate
//! decides whether the cursor sits on a reference, determines its kind,
//! normalizes its textual form, resolves it against the tree or a built-in
//! registry of native concepts, and renders human-readable hover output.
//!
//! The underlying markup parser and its syntax/DOM trees are external
//! collaborators: the `locator` module extracts a plain-value snapshot of
//! everything the engine reads, and all decisions are made, and verified,
//! over that snapshot.

pub mod args;
pub mod environment;
pub mod hover;
pub mod locator;
pub mod mthds_resolution;
pub mod query;
pub mod schema_ext;
pub mod strutil;
pub mod tree;

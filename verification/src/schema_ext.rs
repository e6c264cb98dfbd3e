//! Extension metadata attached to JSON schemas.
//!
//! A schema may carry an extension block under the tool's own key
//! (preferred) or under the standard key; the block holds documentation
//! and link overrides used by the generic, non-semantic hover path.  The
//! host deserializes the block; these are the plain shapes it fills.

use vstd::prelude::*;

verus! {

/// The extension block of a JSON schema.
#[derive(Debug, Clone)]
pub struct TaploSchemaExt {
    pub hidden: Option<bool>,
    pub links: Option<ExtLinks>,
    pub docs: Option<ExtDocs>,
    pub init_keys: Option<Vec<String>>,
    pub plugins: Vec<String>,
}

/// Documentation overrides of a schema extension.
#[derive(Debug, Clone)]
pub struct ExtDocs {
    pub main: Option<String>,
    pub const_value: Option<String>,
    pub default_value: Option<String>,
    pub enum_values: Option<Vec<Option<String>>>,
}

/// Link overrides of a schema extension.
#[derive(Debug, Clone)]
pub struct ExtLinks {
    pub key: Option<String>,
    pub enum_values: Option<Vec<Option<String>>>,
}

impl Default for TaploSchemaExt {
    /// An empty extension block.
    fn default() -> (r: Self)
        ensures
            r.hidden is None,
            r.links is None,
            r.docs is None,
            r.init_keys is None,
            r.plugins@.len() == 0,
    {
        TaploSchemaExt { hidden: None, links: None, docs: None, init_keys: None, plugins: Vec::new() }
    }
}

impl Default for ExtDocs {
    /// Documentation overrides with nothing overridden.
    fn default() -> (r: Self)
        ensures
            r.main is None,
            r.const_value is None,
            r.default_value is None,
            r.enum_values is None,
    {
        ExtDocs { main: None, const_value: None, default_value: None, enum_values: None }
    }
}

impl Default for ExtLinks {
    /// Link overrides with nothing overridden.
    fn default() -> (r: Self)
        ensures
            r.key is None,
            r.enum_values is None,
    {
        ExtLinks { key: None, enum_values: None }
    }
}

} // verus!

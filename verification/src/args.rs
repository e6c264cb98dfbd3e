//! Plain shapes of the command-line options that concern the library.
//!
//! The host's argument parser fills these; only the values matter here, so
//! the shapes carry no parser attributes.

use vstd::prelude::*;

verus! {

/// Operations with the tool's configuration file.
#[derive(Clone, Copy, PartialEq, Eq, Structural, Debug)]
pub enum PlxtConfigCommand {
    /// Print the default configuration file.
    Default,
    /// Print the JSON schema of the configuration file.
    Schema,
}

/// General options shared by the commands.
#[derive(Debug)]
pub struct PlxtGeneralArgs {
    /// Path to the configuration file, overriding discovery.
    pub config: Option<String>,
    /// A cache path.
    pub cache_path: Option<String>,
    /// Do not search for a configuration file.
    pub no_auto_config: bool,
}

impl PlxtGeneralArgs {
    /// Whether configuration discovery should run at all: an explicit path
    /// overrides it, and it can be switched off.
    pub fn wants_discovery(&self) -> (r: bool)
        ensures
            r == (self.config is None && !self.no_auto_config),
    {
        match &self.config {
            Some(_) => false,
            None => !self.no_auto_config,
        }
    }
}

} // verus!

//! The shape of a clean invocation, as the command line hands it over.
//!
//! The surrounding application parses the actual command line and converts
//! into these plain types; the library only reads them.

use vstd::prelude::*;

verus! {

/// The kinds of resource the cleaner can target.
#[derive(Clone, Copy, Debug)]
pub enum Resources {
    ConfigMap,
}

/// The arguments of one clean invocation.
#[derive(Debug)]
pub struct CommandArgs {
    /// Namespace to scan; absent means the current context's namespace.
    pub namespace: Option<String>,
    /// Kubeconfig context override.
    pub context: Option<String>,
    /// The kind of resource to clean up.
    pub resource: Resources,
    /// Verbosity of the diagnostic log, as repeat count.
    pub verbosity: u8,
    /// Report candidates without deleting anything.
    pub dry_run: bool,
    /// Keep only candidate names matching this pattern.
    pub filter: Option<String>,
    /// Turn the filter into a blacklist.
    pub inverse_filter: bool,
}

/// The cleaning subcommands.
#[derive(Debug)]
pub enum Commands {
    Clean(CommandArgs),
}

} // verus!

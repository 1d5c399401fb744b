//! The non-interactive command surface: the direct subcommands and their
//! arguments, as plain data. Parsing the process arguments into these
//! types is the binary's business.

use vstd::prelude::*;

verus! {

/// A direct subcommand and its argument.
#[derive(Clone, Debug, PartialEq, Eq)]
pub enum Commands {
    /// Create a new local branch.
    Cnb { name: String },
    /// Switch to an existing branch.
    Cb { name: String },
    /// Clone a repository from a URL.
    Clone { url: String },
}

/// A parsed invocation: a direct subcommand, or none, in which case the
/// interactive menu runs.
#[derive(Clone, Debug, PartialEq, Eq)]
pub struct Cli {
    pub command: Option<Commands>,
}

} // verus!

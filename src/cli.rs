use vstd::prelude::*;

verus! {

/// The command line: one optional subcommand.
pub struct Cli {
    pub command: Option<Commands>,
}

/// The user-facing operations.
#[derive(Debug, Clone, PartialEq, Eq)]
pub enum Commands {
    /// Initialize a new repository.
    Init,
    /// Track files for versioning.
    Track { files: Vec<String> },
    /// Stop tracking files, leaving their newest content in place.
    Untrack { files: Vec<String> },
    /// Record the files' current content as a new version.
    Bury { tag: Option<String>, files: Vec<String> },
    /// Restore the files to a version given by tag or number.
    Dig { tag: Option<String>, version: Option<usize>, files: Vec<String> },
    /// Restore every tracked file to its newest version.
    Surface,
    /// List tracked files.
    List,
    /// Remove the repository.
    Reset,
}

} // verus!

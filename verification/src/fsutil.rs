//! Decisions made from what the file system shows about a path.

use vstd::prelude::*;
use vstd::string::*;

use crate::errors::{AgentDevexError, ErrorView};

verus! {

/// What is found at a path that a project is to be created in.
#[derive(Debug)]
pub enum DirProbe {
    /// Nothing exists at the path.
    Missing,
    /// Something other than a directory exists at the path.
    NotADirectory,
    /// A directory whose listing could be read; `has_entries` tells
    /// whether the listing yields anything.
    Directory { has_entries: bool },
    /// A directory whose listing could not be read, with the reason.
    Unreadable { source: String },
}

/// True when `path` does not exist, or exists and contains no entries.
pub fn is_missing_or_empty_dir(path: &str, probe: &DirProbe) -> (r: Result<bool, AgentDevexError>)
    ensures
        match *probe {
            DirProbe::Missing => r == Ok::<bool, AgentDevexError>(true),
            DirProbe::NotADirectory => r == Ok::<bool, AgentDevexError>(false),
            DirProbe::Directory { has_entries } => r == Ok::<bool, AgentDevexError>(!has_entries),
            DirProbe::Unreadable { source } => r matches Err(e) && e@ == (ErrorView::IoError {
                path: path@,
                source: source@,
            }),
        },
{
    match probe {
        DirProbe::Missing => Ok(true),
        DirProbe::NotADirectory => Ok(false),
        DirProbe::Directory { has_entries } => Ok(!*has_entries),
        DirProbe::Unreadable { source } => Err(
            AgentDevexError::IoError {
                path: String::from_str(path),
                source: String::from_str(source.as_str()),
            },
        ),
    }
}

} // verus!

//! Typed errors of the scaffolding and deploy helpers, with plain-value
//! fields (paths and failure reasons as text).

use vstd::prelude::*;
use vstd::string::*;

use crate::errors::{concat2, concat3};

verus! {

/// Failures of scaffolding and deploy helpers.
#[derive(Debug)]
pub enum Error {
    Io { path: String, source: String },
    ReadDir { path: String, source: String },
    DirectoryNotEmpty { path: String },
    MissingContractManifest { path: String },
    StellarSpawn { label: String, source: String },
    StellarFailed { label: String, status: String },
    WasmNotFound,
}

/// The text an [`Error`] is shown with.
pub open spec fn error_text(e: Error) -> Seq<char> {
    match e {
        Error::Io { path, source } => "failed to create or write "@ + path@,
        Error::ReadDir { path, source } => "cannot read directory "@ + path@,
        Error::DirectoryNotEmpty { path } => "directory "@ + path@
            + " already exists and is not empty"@,
        Error::MissingContractManifest { path } => "missing "@ + path@
            + " — run `agent-devex init` first or pass --project-dir"@,
        Error::StellarSpawn { label, source } => label@
            + " failed to start — is stellar-cli installed and on PATH?"@,
        Error::StellarFailed { label, status } => label@ + " exited with "@ + status@,
        Error::WasmNotFound => "no .wasm after build — check stellar contract build output"@,
    }
}

impl Error {
    /// The text this error is shown with.
    pub fn message(&self) -> (m: String)
        ensures
            m@ == error_text(*self),
    {
        match self {
            Error::Io { path, .. } => concat2("failed to create or write ", path.as_str()),
            Error::ReadDir { path, .. } => concat2("cannot read directory ", path.as_str()),
            Error::DirectoryNotEmpty { path } => concat3(
                "directory ",
                path.as_str(),
                " already exists and is not empty",
            ),
            Error::MissingContractManifest { path } => concat3(
                "missing ",
                path.as_str(),
                " — run `agent-devex init` first or pass --project-dir",
            ),
            Error::StellarSpawn { label, .. } => concat2(
                label.as_str(),
                " failed to start — is stellar-cli installed and on PATH?",
            ),
            Error::StellarFailed { label, status } => concat3(
                label.as_str(),
                " exited with ",
                status.as_str(),
            ),
            Error::WasmNotFound => String::from_str(
                "no .wasm after build — check stellar contract build output",
            ),
        }
    }
}

} // verus!

//! Typed errors of the library.
//!
//! Every field is a plain value: a path is the text of the path, an I/O or
//! parse failure is the text its source reported, and an exit status is the
//! text the platform gives for it.

use vstd::prelude::*;
use vstd::string::*;

verus! {

/// Failures that commands and helpers report.
#[derive(Debug)]
pub enum AgentDevexError {
    /// Missing project or tool config (e.g. the generated contract `Cargo.toml`).
    ConfigNotFound { path: String },
    IoError { path: String, source: String },
    DirectoryNotEmpty { path: String },
    ToolSpawn { program: String, label: String, source: String },
    ToolFailed { label: String, status: String },
    ToolMissing { program: String },
    InvalidProjectName { name: String, reason: String },
    WasmNotFound,
    InvalidToml { path: String, source: String },
    InvalidConfigValue { key: String, value: String },
    ValidationFailed(String),
    /// No embedded template file lies under the given prefix or path.
    TemplateMissing(String),
}

/// An [`AgentDevexError`] seen as character sequences.
pub enum ErrorView {
    ConfigNotFound { path: Seq<char> },
    IoError { path: Seq<char>, source: Seq<char> },
    DirectoryNotEmpty { path: Seq<char> },
    ToolSpawn { program: Seq<char>, label: Seq<char>, source: Seq<char> },
    ToolFailed { label: Seq<char>, status: Seq<char> },
    ToolMissing { program: Seq<char> },
    InvalidProjectName { name: Seq<char>, reason: Seq<char> },
    WasmNotFound,
    InvalidToml { path: Seq<char>, source: Seq<char> },
    InvalidConfigValue { key: Seq<char>, value: Seq<char> },
    ValidationFailed(Seq<char>),
    TemplateMissing(Seq<char>),
}

impl View for AgentDevexError {
    type V = ErrorView;

    open spec fn view(&self) -> ErrorView {
        match self {
            AgentDevexError::ConfigNotFound { path } => ErrorView::ConfigNotFound { path: path@ },
            AgentDevexError::IoError { path, source } => ErrorView::IoError {
                path: path@,
                source: source@,
            },
            AgentDevexError::DirectoryNotEmpty { path } => ErrorView::DirectoryNotEmpty {
                path: path@,
            },
            AgentDevexError::ToolSpawn { program, label, source } => ErrorView::ToolSpawn {
                program: program@,
                label: label@,
                source: source@,
            },
            AgentDevexError::ToolFailed { label, status } => ErrorView::ToolFailed {
                label: label@,
                status: status@,
            },
            AgentDevexError::ToolMissing { program } => ErrorView::ToolMissing {
                program: program@,
            },
            AgentDevexError::InvalidProjectName { name, reason } => ErrorView::InvalidProjectName {
                name: name@,
                reason: reason@,
            },
            AgentDevexError::WasmNotFound => ErrorView::WasmNotFound,
            AgentDevexError::InvalidToml { path, source } => ErrorView::InvalidToml {
                path: path@,
                source: source@,
            },
            AgentDevexError::InvalidConfigValue { key, value } => ErrorView::InvalidConfigValue {
                key: key@,
                value: value@,
            },
            AgentDevexError::ValidationFailed(msg) => ErrorView::ValidationFailed(msg@),
            AgentDevexError::TemplateMissing(name) => ErrorView::TemplateMissing(name@),
        }
    }
}

/// The text an error is shown with.
pub open spec fn error_message(e: ErrorView) -> Seq<char> {
    match e {
        ErrorView::ConfigNotFound { path } => "config not found: "@ + path,
        ErrorView::IoError { path, source } => "I/O error at "@ + path + ": "@ + source,
        ErrorView::DirectoryNotEmpty { path } => "directory "@ + path
            + " already exists and is not empty"@,
        ErrorView::ToolSpawn { program, label, source } => label + " failed to start — is `"@
            + program + "` installed and on PATH?"@,
        ErrorView::ToolFailed { label, status } => label + " exited with "@ + status,
        ErrorView::ToolMissing { program } => "required tool `"@ + program
            + "` was not found on PATH"@,
        ErrorView::InvalidProjectName { name, reason } => "invalid project name `"@ + name
            + "`: "@ + reason,
        ErrorView::WasmNotFound => "no .wasm after build — check stellar contract build output"@,
        ErrorView::InvalidToml { path, source } => "invalid TOML config "@ + path + ": "@
            + source,
        ErrorView::InvalidConfigValue { key, value } => "invalid config value for "@ + key
            + ": "@ + value,
        ErrorView::ValidationFailed(msg) => "validation failed: "@ + msg,
        ErrorView::TemplateMissing(name) => "embedded template not found: "@ + name,
    }
}

/// `a + b` as a new string.
pub fn concat2(a: &str, b: &str) -> (r: String)
    ensures
        r@ == a@ + b@,
{
    let mut r = String::from_str(a);
    r.append(b);
    r
}

/// `a + b + c` as a new string.
pub fn concat3(a: &str, b: &str, c: &str) -> (r: String)
    ensures
        r@ == a@ + b@ + c@,
{
    let mut r = String::from_str(a);
    r.append(b);
    r.append(c);
    r
}

/// `a + b + c + d` as a new string.
pub fn concat4(a: &str, b: &str, c: &str, d: &str) -> (r: String)
    ensures
        r@ == a@ + b@ + c@ + d@,
{
    let mut r = String::from_str(a);
    r.append(b);
    r.append(c);
    r.append(d);
    r
}

impl AgentDevexError {
    /// The text this error is shown with.
    pub fn message(&self) -> (m: String)
        ensures
            m@ == error_message(self@),
    {
        match self {
            AgentDevexError::ConfigNotFound { path } => concat2("config not found: ", path.as_str()),
            AgentDevexError::IoError { path, source } => concat4(
                "I/O error at ",
                path.as_str(),
                ": ",
                source.as_str(),
            ),
            AgentDevexError::DirectoryNotEmpty { path } => concat3(
                "directory ",
                path.as_str(),
                " already exists and is not empty",
            ),
            AgentDevexError::ToolSpawn { program, label, source } => concat4(
                label.as_str(),
                " failed to start — is `",
                program.as_str(),
                "` installed and on PATH?",
            ),
            AgentDevexError::ToolFailed { label, status } => concat3(
                label.as_str(),
                " exited with ",
                status.as_str(),
            ),
            AgentDevexError::ToolMissing { program } => concat3(
                "required tool `",
                program.as_str(),
                "` was not found on PATH",
            ),
            AgentDevexError::InvalidProjectName { name, reason } => concat4(
                "invalid project name `",
                name.as_str(),
                "`: ",
                reason.as_str(),
            ),
            AgentDevexError::WasmNotFound => String::from_str(
                "no .wasm after build — check stellar contract build output",
            ),
            AgentDevexError::InvalidToml { path, source } => concat4(
                "invalid TOML config ",
                path.as_str(),
                ": ",
                source.as_str(),
            ),
            AgentDevexError::InvalidConfigValue { key, value } => concat4(
                "invalid config value for ",
                key.as_str(),
                ": ",
                value.as_str(),
            ),
            AgentDevexError::ValidationFailed(msg) => concat2("validation failed: ", msg.as_str()),
            AgentDevexError::TemplateMissing(name) => concat2(
                "embedded template not found: ",
                name.as_str(),
            ),
        }
    }
}

} // verus!

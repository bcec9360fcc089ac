//! Agent-Devex: scaffolding and deploy helpers for Soroban + MCP projects.
//!
//! The library holds the rules of the command-line tool: which project names
//! are accepted, how templates are expanded, where files of a generated
//! project live, how configuration values are read, and what each command
//! decides from what it finds on disk. Everything that touches the terminal,
//! the file system or a subprocess happens in the program around it.

pub mod commands;
pub mod config;
pub mod contract;
pub mod embed;
pub mod error;
pub mod errors;
pub mod fsutil;
pub mod output;
pub mod process;
pub mod names;
pub mod next_steps;
pub mod paths;
pub mod scaffold;
pub mod secrets;
pub mod state;
pub mod text;

use vstd::prelude::*;

verus! {

/// Language of the generated MCP server.
#[derive(Clone, Copy, Debug, PartialEq, Eq, Structural)]
pub enum Lang {
    Ts,
    Py,
}

/// The name a language has in configuration files.
pub open spec fn lang_text(lang: Lang) -> Seq<char> {
    match lang {
        Lang::Ts => "ts"@,
        Lang::Py => "py"@,
    }
}

impl Lang {
    /// The name this language has in configuration files (`ts` or `py`).
    pub fn as_config_str(&self) -> (s: &'static str)
        ensures
            s@ == lang_text(*self),
    {
        match self {
            Lang::Ts => "ts",
            Lang::Py => "py",
        }
    }
}

} // verus!

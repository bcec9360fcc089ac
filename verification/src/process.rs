//! Decisions about invocations of external tooling (stellar-cli, etc.).

use vstd::prelude::*;
use vstd::string::*;

use crate::errors::{AgentDevexError, ErrorView};

verus! {

/// A program to run, with its arguments, the directory to run it in, and the
/// label its failures are reported under.
#[derive(Debug)]
pub struct ToolInvocation {
    pub program: String,
    pub args: Vec<String>,
    pub cwd: String,
    pub label: String,
}

/// How a run of an external program ended.
#[derive(Debug)]
pub enum ToolOutcome {
    /// The program could not be started (for example, it is not on PATH).
    SpawnFailed { source: String },
    /// The program ran and exited; `status` is the exit status as text.
    Exited { success: bool, status: String },
}

/// What a run of `program` under `label` amounts to: spawn failures are
/// told apart from non-zero exits.
pub open spec fn tool_result(program: Seq<char>, label: Seq<char>, outcome: ToolOutcome) -> Result<(), ErrorView> {
    match outcome {
        ToolOutcome::SpawnFailed { source } => Err(ErrorView::ToolSpawn { program, label, source: source@ }),
        ToolOutcome::Exited { success, status } => if success {
            Ok(())
        } else {
            Err(ErrorView::ToolFailed { label, status: status@ })
        },
    }
}

/// What a run of `program` under `label` gives back: the exit status (as
/// text) of a successful run, or the error that [`tool_result`] names.
pub open spec fn tool_status(program: Seq<char>, label: Seq<char>, outcome: ToolOutcome) -> Result<
    Seq<char>,
    ErrorView,
> {
    match outcome {
        ToolOutcome::SpawnFailed { source } => Err(ErrorView::ToolSpawn { program, label, source: source@ }),
        ToolOutcome::Exited { success, status } => if success {
            Ok(status@)
        } else {
            Err(ErrorView::ToolFailed { label, status: status@ })
        },
    }
}

pub open spec fn status_result_view(r: Result<String, AgentDevexError>) -> Result<Seq<char>, ErrorView> {
    match r {
        Ok(s) => Ok(s@),
        Err(e) => Err(e@),
    }
}

pub open spec fn result_view(r: Result<(), AgentDevexError>) -> Result<(), ErrorView> {
    match r {
        Ok(()) => Ok(()),
        Err(e) => Err(e@),
    }
}

/// Judge a finished run of `program` (started in some directory under
/// `label`): a spawn failure and a non-zero exit are told apart, and a
/// successful run gives back its exit status.
pub fn check_tool_run(program: &str, label: &str, outcome: &ToolOutcome) -> (r: Result<
    String,
    AgentDevexError,
>)
    ensures
        status_result_view(r) == tool_status(program@, label@, *outcome),
{
    match outcome {
        ToolOutcome::SpawnFailed { source } => Err(
            AgentDevexError::ToolSpawn {
                program: String::from_str(program),
                label: String::from_str(label),
                source: String::from_str(source.as_str()),
            },
        ),
        ToolOutcome::Exited { success, status } => {
            if *success {
                Ok(String::from_str(status.as_str()))
            } else {
                Err(
                    AgentDevexError::ToolFailed {
                        label: String::from_str(label),
                        status: String::from_str(status.as_str()),
                    },
                )
            }
        },
    }
}

/// Judge a finished run of `stellar` on PATH.
pub fn run_stellar(label: &str, outcome: &ToolOutcome) -> (r: Result<(), AgentDevexError>)
    ensures
        result_view(r) == tool_result("stellar"@, label@, *outcome),
{
    match check_tool_run("stellar", label, outcome) {
        Ok(_) => Ok(()),
        Err(e) => Err(e),
    }
}

/// An invocation of `stellar` with the given arguments.
pub fn stellar_invocation(args: Vec<String>, cwd: &str, label: &str) -> (t: ToolInvocation)
    ensures
        t.program@ == "stellar"@,
        t.args@ == args@,
        t.cwd@ == cwd@,
        t.label@ == label@,
{
    ToolInvocation {
        program: String::from_str("stellar"),
        args,
        cwd: String::from_str(cwd),
        label: String::from_str(label),
    }
}

} // verus!

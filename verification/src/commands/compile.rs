//! `compile`: load `agent.toml` as a prerequisite for compilation.
//!
//! Soroban `stellar contract build` is not invoked here; this is the stub
//! of a later compile implementation.

use vstd::prelude::*;

use crate::config::AgentConfig;
use crate::errors::AgentDevexError;

verus! {

/// Succeeds exactly when the project's `agent.toml` loaded; a load error is
/// the command's error.
pub fn cmd_compile(loaded: Result<AgentConfig, AgentDevexError>) -> (r: Result<(), AgentDevexError>)
    ensures
        match loaded {
            Ok(_) => r is Ok,
            Err(e) => r == Err::<(), AgentDevexError>(e),
        },
{
    match loaded {
        Ok(_cfg) => Ok(()),
        Err(e) => Err(e),
    }
}

} // verus!

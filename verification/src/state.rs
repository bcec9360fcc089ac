//! Local project state (not secrets) stored under `.agent-devex/`.

use vstd::prelude::*;

use crate::paths::{join, join_path};

verus! {

pub const STATE_DIR: &'static str = ".agent-devex";

pub const STATE_FILE: &'static str = "state.toml";

/// What the tool records about a project between runs.
#[derive(Debug)]
pub struct ProjectState {
    pub network: Option<String>,
    pub contract_id: Option<String>,
    pub wasm_path: Option<String>,
    pub last_deployed_unix: Option<u64>,
}

impl Default for ProjectState {
    fn default() -> (s: ProjectState)
        ensures
            s.network is None,
            s.contract_id is None,
            s.wasm_path is None,
            s.last_deployed_unix is None,
    {
        ProjectState { network: None, contract_id: None, wasm_path: None, last_deployed_unix: None }
    }
}

/// `<project>/.agent-devex/state.toml`.
pub fn state_path(project_dir: &str) -> (r: String)
    ensures
        r@ == join(join(project_dir@, ".agent-devex"@), "state.toml"@),
{
    let dir = join_path(project_dir, STATE_DIR);
    join_path(dir.as_str(), STATE_FILE)
}

} // verus!

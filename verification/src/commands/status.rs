//! `status`: show the local network, language, and contract id
//! configuration used by the MCP server.

use vstd::prelude::*;
use vstd::string::*;

use crate::config::{load_or_default, opt_view, AgentDevexConfig};
use crate::errors::{concat2, AgentDevexError, ErrorView};
use crate::output::{message_views, Level, Message};
use crate::paths::{contract_crate_path, contract_manifest, join};
use crate::state::ProjectState;

verus! {

/// What the program found for `status`.
#[derive(Debug)]
pub struct StatusProbe {
    /// The contract manifest of the project is a file.
    pub manifest_exists: bool,
    /// What loading `agent-devex.toml` gave (`Ok(None)` when it is absent).
    pub config: Result<Option<AgentDevexConfig>, AgentDevexError>,
    /// What loading `.agent-devex/state.toml` gave (`Ok(None)` when absent).
    pub state: Result<Option<ProjectState>, AgentDevexError>,
    /// `AGENTPAY_CONTRACT_ID` from the environment, when set.
    pub env_contract_id: Option<String>,
    /// `STELLAR_RPC_URL` from the environment, when set.
    pub env_rpc_url: Option<String>,
}

pub open spec fn first_some(a: Option<Seq<char>>, b: Option<Seq<char>>) -> Option<Seq<char>> {
    match a {
        Some(x) => Some(x),
        None => b,
    }
}

pub open spec fn or_text(a: Option<Seq<char>>, d: Seq<char>) -> Seq<char> {
    match a {
        Some(x) => x,
        None => d,
    }
}

/// The lines of a status report.
pub open spec fn status_lines(
    dir: Seq<char>,
    network: Seq<char>,
    lang: Seq<char>,
    rpc: Seq<char>,
    contract_id: Option<Seq<char>>,
) -> Seq<(Level, Seq<char>)> {
    seq![
        (Level::Success, "Project "@ + dir),
        (Level::Hint, "  network:     "@ + network),
        (Level::Hint, "  mcp lang:    "@ + lang),
        (Level::Hint, "  rpc:         "@ + rpc),
        match contract_id {
            Some(id) => (Level::Hint, "  contract id: "@ + id),
            None => (
                Level::Warn,
                "  contract id: (not set) export AGENTPAY_CONTRACT_ID after deploy"@,
            ),
        },
    ]
}

pub open spec fn lines_result_view(r: Result<Vec<Message>, AgentDevexError>) -> Result<
    Seq<(Level, Seq<char>)>,
    ErrorView,
> {
    match r {
        Ok(v) => Ok(message_views(v@)),
        Err(e) => Err(e@),
    }
}

/// The outcome of `status`: a missing contract manifest, a config or state
/// load error, or (with `require_id`) a missing contract id fail it; else
/// the report.
pub open spec fn status_result(dir: Seq<char>, require_id: bool, p: StatusProbe) -> Result<
    Seq<(Level, Seq<char>)>,
    ErrorView,
> {
    if !p.manifest_exists {
        Err(ErrorView::ConfigNotFound { path: join(contract_crate_path(dir), "Cargo.toml"@) })
    } else {
        match p.config {
            Err(e) => Err(e@),
            Ok(loaded) => match p.state {
                Err(e) => Err(e@),
                Ok(st) => {
                    let cfg_network = match loaded {
                        Some(c) => opt_view(c.network),
                        None => None,
                    };
                    let cfg_lang = match loaded {
                        Some(c) => opt_view(c.default_lang),
                        None => None,
                    };
                    let st_network = match st {
                        Some(s) => opt_view(s.network),
                        None => None,
                    };
                    let st_id = match st {
                        Some(s) => opt_view(s.contract_id),
                        None => None,
                    };
                    let id = first_some(opt_view(p.env_contract_id), st_id);
                    if require_id && id is None {
                        Err(
                            ErrorView::ValidationFailed(
                                "no contract id configured; export AGENTPAY_CONTRACT_ID after deploy"@,
                            ),
                        )
                    } else {
                        Ok(
                            status_lines(
                                dir,
                                or_text(first_some(st_network, cfg_network), "testnet"@),
                                or_text(cfg_lang, "unknown"@),
                                or_text(
                                    opt_view(p.env_rpc_url),
                                    "https://soroban-testnet.stellar.org"@,
                                ),
                                id,
                            ),
                        )
                    }
                },
            },
        }
    }
}

/// Which contract id `status` shows: `AGENTPAY_CONTRACT_ID` when it is
/// set, else the id that `deploy` recorded in the project state; with
/// neither, the line says it is not set and `--require-id` fails. The
/// report always has five lines and the contract id comes last.
pub proof fn lemma_status_contract_id(dir: Seq<char>, require_id: bool, p: StatusProbe)
    requires
        p.manifest_exists,
        p.config is Ok,
        p.state is Ok,
    ensures
        p.env_contract_id matches Some(e) ==> (status_result(dir, require_id, p) matches Ok(lines)
            && lines.len() == 5 && lines[4] == (Level::Hint, "  contract id: "@ + e@)),
        p.env_contract_id is None ==> (p.state matches Ok(Some(st)) ==> (st.contract_id matches Some(
            c,
        ) ==> (status_result(dir, require_id, p) matches Ok(lines) && lines.len() == 5 && lines[4]
            == (Level::Hint, "  contract id: "@ + c@)))),
        p.env_contract_id is None ==> (p.state matches Ok(st) ==> ((st is None
            || st->Some_0.contract_id is None) ==> {
            &&& require_id ==> status_result(dir, require_id, p) == Err::<
                Seq<(Level, Seq<char>)>,
                ErrorView,
            >(
                ErrorView::ValidationFailed(
                    "no contract id configured; export AGENTPAY_CONTRACT_ID after deploy"@,
                ),
            )
            &&& !require_id ==> (status_result(dir, require_id, p) matches Ok(lines) && lines.len()
                == 5 && lines[4] == (
                Level::Warn,
                "  contract id: (not set) export AGENTPAY_CONTRACT_ID after deploy"@,
            ))
        })),
{
}

fn pick<'a>(a: &'a Option<String>, b: &'a Option<String>) -> (r: Option<&'a String>)
    ensures
        match r {
            Some(s) => first_some(opt_view(*a), opt_view(*b)) == Some(s@),
            None => first_some(opt_view(*a), opt_view(*b)) is None,
        },
{
    match a {
        Some(x) => Some(x),
        None => match b {
            Some(y) => Some(y),
            None => None,
        },
    }
}

/// Print local project + contract configuration used by the MCP server.
pub fn cmd_status(project_dir: &str, require_id: bool, probe: StatusProbe) -> (r: Result<
    Vec<Message>,
    AgentDevexError,
>)
    ensures
        lines_result_view(r) == status_result(project_dir@, require_id, probe),
{
    if !probe.manifest_exists {
        return Err(AgentDevexError::ConfigNotFound { path: contract_manifest(project_dir) });
    }
    let ghost p = probe;
    let cfg = match load_or_default(probe.config) {
        Ok(c) => c,
        Err(e) => {
            return Err(e);
        },
    };
    let state = match probe.state {
        Ok(Some(s)) => s,
        Ok(None) => ProjectState::default(),
        Err(e) => {
            return Err(e);
        },
    };
    let network_opt = pick(&state.network, &cfg.network);
    let network: &str = match network_opt {
        Some(n) => n.as_str(),
        None => "testnet",
    };
    let lang: &str = match &cfg.default_lang {
        Some(l) => l.as_str(),
        None => "unknown",
    };
    let id = pick(&probe.env_contract_id, &state.contract_id);
    if require_id && id.is_none() {
        return Err(
            AgentDevexError::ValidationFailed(
                String::from_str(
                    "no contract id configured; export AGENTPAY_CONTRACT_ID after deploy",
                ),
            ),
        );
    }
    let rpc: &str = match &probe.env_rpc_url {
        Some(u) => u.as_str(),
        None => "https://soroban-testnet.stellar.org",
    };
    let mut v = Vec::new();
    v.push(Message::success(concat2("Project ", project_dir)));
    v.push(Message::hint(concat2("  network:     ", network)));
    v.push(Message::hint(concat2("  mcp lang:    ", lang)));
    v.push(Message::hint(concat2("  rpc:         ", rpc)));
    match id {
        Some(i) => v.push(Message::hint(concat2("  contract id: ", i.as_str()))),
        None => v.push(
            Message::warn(
                String::from_str(
                    "  contract id: (not set) export AGENTPAY_CONTRACT_ID after deploy",
                ),
            ),
        ),
    }
    proof {
        let st_opt = p.state->Ok_0;
        let loaded = p.config->Ok_0;
        assert(message_views(v@) =~= status_lines(
            project_dir@,
            network@,
            lang@,
            rpc@,
            first_some(
                opt_view(p.env_contract_id),
                match st_opt {
                    Some(s) => opt_view(s.contract_id),
                    None => None,
                },
            ),
        ));
    }
    Ok(v)
}

} // verus!

//! Configuration of Agent-Devex.
//!
//! The optional tool-level `agent-devex.toml` ([`AgentDevexConfig`]) and the
//! project-level `agent.toml` ([`AgentConfig`]). Reading the files and
//! parsing their TOML happens in the program around the library; this module
//! holds the values, their defaults, and how they are interpreted.

use vstd::prelude::*;
use vstd::string::*;

use crate::errors::{AgentDevexError, ErrorView};
use crate::text::{eq_str, lower, to_ascii_lowercase, trim, trim_str};
use crate::{lang_text, Lang};

verus! {

pub const CONFIG_FILE_NAME: &'static str = "agent-devex.toml";

/// Project configuration file written by `init` and read by compile/deploy/run.
pub const AGENT_TOML_FILE_NAME: &'static str = "agent.toml";

/// MCP port used when neither the command line nor `agent.toml` names one.
pub const DEFAULT_MCP_PORT: u16 = 3000;

/// Network used when nothing names one.
pub const DEFAULT_NETWORK: &'static str = "testnet";

pub open spec fn opt_view(o: Option<String>) -> Option<Seq<char>> {
    match o {
        Some(s) => Some(s@),
        None => None,
    }
}

/// Named contract ids for a generated project.
#[derive(Debug)]
pub struct ContractIds {
    /// AgentPay / agent_pay_integration contract id when known.
    pub agent_pay: Option<String>,
}

/// MCP server settings of a project.
#[derive(Debug)]
pub struct McpConfig {
    /// Language of the generated MCP server (`ts` or `py`), when recorded.
    pub lang: Option<String>,
    /// Port the local MCP server listens on.
    pub port: u16,
}

/// Project-level configuration stored in [`AGENT_TOML_FILE_NAME`].
#[derive(Debug)]
pub struct AgentConfig {
    /// Stellar network name (`testnet` or `mainnet`).
    pub network: String,
    /// Optional on-chain contract identifiers (never secret keys).
    pub contract_ids: ContractIds,
    pub mcp: McpConfig,
}

impl Default for AgentConfig {
    /// `testnet`, no contract ids, no recorded language, port 3000.
    fn default() -> (c: AgentConfig)
        ensures
            c.network@ == "testnet"@,
            c.contract_ids.agent_pay is None,
            c.mcp.lang is None,
            c.mcp.port == 3000,
    {
        AgentConfig {
            network: String::from_str(DEFAULT_NETWORK),
            contract_ids: ContractIds { agent_pay: None },
            mcp: McpConfig { lang: None, port: DEFAULT_MCP_PORT },
        }
    }
}

impl AgentConfig {
    /// The `agent.toml` that `init` writes for a new project in `lang`.
    pub fn for_new_project(lang: Lang) -> (c: AgentConfig)
        ensures
            c.network@ == "testnet"@,
            c.contract_ids.agent_pay is None,
            c.mcp.lang matches Some(l) && l@ == lang_text(lang),
            c.mcp.port == 3000,
    {
        AgentConfig {
            network: String::from_str(DEFAULT_NETWORK),
            contract_ids: ContractIds { agent_pay: None },
            mcp: McpConfig {
                lang: Some(String::from_str(lang.as_config_str())),
                port: DEFAULT_MCP_PORT,
            },
        }
    }
}

impl McpConfig {
    /// A port is usable unless it is 0 (which would ask the system for any port).
    pub fn validate_port(port: u16) -> (r: Result<u16, AgentDevexError>)
        ensures
            port != 0 ==> r == Ok::<u16, AgentDevexError>(port),
            port == 0 ==> (r matches Err(e) && e@ == (ErrorView::InvalidConfigValue {
                key: "mcp.port"@,
                value: "0"@,
            })),
    {
        if port == 0 {
            Err(
                AgentDevexError::InvalidConfigValue {
                    key: String::from_str("mcp.port"),
                    value: String::from_str("0"),
                },
            )
        } else {
            Ok(port)
        }
    }
}

/// Project metadata in `agent-devex.toml`.
#[derive(Debug)]
pub struct ProjectMeta {
    pub author: Option<String>,
    pub description: Option<String>,
}

impl Default for ProjectMeta {
    fn default() -> (m: ProjectMeta)
        ensures
            m.author is None,
            m.description is None,
    {
        ProjectMeta { author: None, description: None }
    }
}

/// Tool-level configuration read from the optional `agent-devex.toml`.
#[derive(Debug)]
pub struct AgentDevexConfig {
    /// Default Stellar network name for `deploy` (overridden by `--network`).
    pub network: Option<String>,
    /// Default MCP language when `init` omits `--lang`.
    pub default_lang: Option<String>,
    pub project: ProjectMeta,
}

impl Default for AgentDevexConfig {
    fn default() -> (c: AgentDevexConfig)
        ensures
            c.network is None,
            c.default_lang is None,
            c.project.author is None,
            c.project.description is None,
    {
        AgentDevexConfig { network: None, default_lang: None, project: ProjectMeta::default() }
    }
}

/// How a configured language name is read: trimmed and lowercased, `ts` or
/// `typescript` is TypeScript, `py` or `python` is Python, and anything else
/// is refused with the normalized text.
pub open spec fn lang_from_text(value: Seq<char>) -> Result<Lang, Seq<char>> {
    let v = lower(trim(value));
    if v == "ts"@ || v == "typescript"@ {
        Ok(Lang::Ts)
    } else if v == "py"@ || v == "python"@ {
        Ok(Lang::Py)
    } else {
        Err(v)
    }
}

pub open spec fn lang_result_view(r: Result<Lang, AgentDevexError>) -> Result<Lang, ErrorView> {
    match r {
        Ok(l) => Ok(l),
        Err(e) => Err(e@),
    }
}

/// What [`parse_lang`] gives for `value`.
pub open spec fn parse_lang_spec(value: Seq<char>) -> Result<Lang, ErrorView> {
    match lang_from_text(value) {
        Ok(l) => Ok(l),
        Err(v) => Err(ErrorView::InvalidConfigValue { key: "default_lang"@, value: v }),
    }
}

/// Read a configured language name (`ts`/`typescript` or `py`/`python`,
/// in any case and surrounded by any whitespace).
pub fn parse_lang(value: &str) -> (r: Result<Lang, AgentDevexError>)
    ensures
        lang_result_view(r) == parse_lang_spec(value@),
{
    let v = to_ascii_lowercase(trim_str(value));
    let s = v.as_str();
    if eq_str(s, "ts") || eq_str(s, "typescript") {
        Ok(Lang::Ts)
    } else if eq_str(s, "py") || eq_str(s, "python") {
        Ok(Lang::Py)
    } else {
        Err(
            AgentDevexError::InvalidConfigValue {
                key: String::from_str("default_lang"),
                value: v,
            },
        )
    }
}

/// The configuration name of a language reads back as that language.
pub proof fn lemma_lang_text_round_trip(lang: Lang)
    ensures
        lang_from_text(lang_text(lang)) == Ok::<Lang, Seq<char>>(lang),
        parse_lang_spec(lang_text(lang)) == Ok::<Lang, ErrorView>(lang),
{
    reveal_strlit("ts");
    reveal_strlit("py");
    reveal_strlit("typescript");
    let t = lang_text(lang);
    assert(t.len() == 2);
    assert(crate::text::trim_start(t) == t);
    assert(crate::text::trim_end(t) == t);
    assert(trim(t) == t);
    assert(lower(t) =~= t);
    if lang == Lang::Py {
        assert(t[0] != "ts"@[0]);
        assert(t != "ts"@);
        assert(t.len() != "typescript"@.len());
    }
}

impl AgentDevexConfig {
    /// Parsed default language, if set.
    pub fn parsed_default_lang(&self) -> (r: Option<Result<Lang, AgentDevexError>>)
        ensures
            match self.default_lang {
                None => r is None,
                Some(v) => r matches Some(p) && lang_result_view(p) == parse_lang_spec(v@),
            },
    {
        match &self.default_lang {
            None => None,
            Some(v) => Some(parse_lang(v.as_str())),
        }
    }
}

/// The configuration to use given what loading `agent-devex.toml` gave:
/// defaults when the file is absent, the load error when it failed.
pub fn load_or_default(loaded: Result<Option<AgentDevexConfig>, AgentDevexError>) -> (r: Result<
    AgentDevexConfig,
    AgentDevexError,
>)
    ensures
        match loaded {
            Ok(Some(c)) => r == Ok::<AgentDevexConfig, AgentDevexError>(c),
            Ok(None) => r matches Ok(c) && c.network is None && c.default_lang is None
                && c.project.author is None && c.project.description is None,
            Err(e) => r == Err::<AgentDevexConfig, AgentDevexError>(e),
        },
{
    match loaded {
        Ok(Some(c)) => Ok(c),
        Ok(None) => Ok(AgentDevexConfig::default()),
        Err(e) => Err(e),
    }
}

} // verus!

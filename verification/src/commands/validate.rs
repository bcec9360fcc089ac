//! `validate`: check that a generated project has the expected layout and
//! parseable config.

use vstd::prelude::*;
use vstd::string::*;

use crate::config::{lang_result_view, parse_lang_spec, AgentDevexConfig};
use crate::errors::{concat2, concat3, AgentDevexError, ErrorView};
use crate::paths::{agent_dir, contract_crate_dir, contract_crate_path, contract_manifest, join, join_path};
use crate::text::{contains, contains_str, join_strings, join_with, string_views};

verus! {

/// What reading `.env.example` gave.
#[derive(Debug)]
pub enum EnvExample {
    /// There is no such file.
    Missing,
    /// The file exists but could not be read, with the reason.
    Unreadable { source: String },
    /// The file's text.
    Text(String),
}

/// What the file system shows about a project directory.
#[derive(Debug)]
pub struct ProjectProbe {
    /// `contracts/agent_pay_integration/Cargo.toml` is a file.
    pub manifest: bool,
    /// `contracts/agent_pay_integration/src/lib.rs` is a file.
    pub contract_lib: bool,
    /// `agent/package.json` is a file.
    pub package_json: bool,
    /// `agent/src/index.ts` is a file.
    pub index_ts: bool,
    /// `agent/pyproject.toml` is a file.
    pub pyproject: bool,
    /// `agent/src/server.py` is a file.
    pub server_py: bool,
    /// `README.md` is a file.
    pub readme: bool,
    pub env_example: EnvExample,
    /// `.gitignore` is a file.
    pub gitignore: bool,
    /// `agent-devex.toml` is a file.
    pub config_file: bool,
    /// What loading `agent-devex.toml` gave (`Ok(None)` when it is absent).
    pub config: Result<Option<AgentDevexConfig>, AgentDevexError>,
}

pub open spec fn issue_if(cond: bool, text: Seq<char>) -> Seq<Seq<char>> {
    if cond {
        seq![text]
    } else {
        seq![]
    }
}

pub open spec fn has_ts_layout(p: ProjectProbe) -> bool {
    p.package_json && p.index_ts
}

pub open spec fn has_py_layout(p: ProjectProbe) -> bool {
    p.pyproject && p.server_py
}

/// The problems found in the layout, in the order they are reported.
pub open spec fn layout_issues(dir: Seq<char>, p: ProjectProbe) -> Seq<Seq<char>> {
    issue_if(!p.manifest, "missing contract manifest "@ + join(contract_crate_path(dir), "Cargo.toml"@))
        + issue_if(
        !p.contract_lib,
        "missing contract source "@ + join(join(contract_crate_path(dir), "src"@), "lib.rs"@),
    ) + issue_if(
        !has_ts_layout(p) && !has_py_layout(p),
        "missing MCP server under "@ + join(dir, "agent"@)
            + " (expected TypeScript or Python layout)"@,
    ) + issue_if(!p.readme, "missing project README.md"@) + issue_if(
        p.env_example is Missing,
        "missing .env.example"@,
    ) + issue_if(!p.gitignore, "missing .gitignore"@) + issue_if(
        !p.config_file,
        "missing agent-devex.toml"@,
    )
}

/// The keys `.env.example` must mention.
pub open spec fn env_key_issues(raw: Seq<char>) -> Seq<Seq<char>> {
    issue_if(!contains(raw, "STELLAR_SECRET_KEY"@), ".env.example missing STELLAR_SECRET_KEY"@)
        + issue_if(
        !contains(raw, "AGENTPAY_CONTRACT_ID"@),
        ".env.example missing AGENTPAY_CONTRACT_ID"@,
    ) + issue_if(!contains(raw, "STELLAR_ACCOUNT"@), ".env.example missing STELLAR_ACCOUNT"@)
}

/// Every problem found, in the order they are reported.
pub open spec fn validation_issues(dir: Seq<char>, p: ProjectProbe) -> Seq<Seq<char>> {
    layout_issues(dir, p) + match p.env_example {
        EnvExample::Text(raw) => env_key_issues(raw@),
        _ => seq![],
    }
}

/// The line a healthy project is reported with.
pub open spec fn healthy_message(dir: Seq<char>, p: ProjectProbe) -> Seq<char> {
    "Project "@ + dir + " looks healthy ("@ + (if has_ts_layout(p) {
        "TypeScript"@
    } else {
        "Python"@
    }) + " MCP + AgentPay contract)."@
}

/// The error a loaded config's default language gives, if any.
pub open spec fn config_lang_error(cfg: Option<AgentDevexConfig>) -> Option<ErrorView> {
    match cfg {
        Some(c) => match c.default_lang {
            Some(l) => match parse_lang_spec(l@) {
                Err(e) => Some(e),
                Ok(_) => None,
            },
            None => None,
        },
        None => None,
    }
}

/// The outcome of `validate`: an unreadable `.env.example` or a broken
/// config stops it first; then any problem found fails it with all problems
/// joined by `; `; otherwise the project is reported healthy.
pub open spec fn validation_result(dir: Seq<char>, p: ProjectProbe) -> Result<Seq<char>, ErrorView> {
    match p.env_example {
        EnvExample::Unreadable { source } => Err(
            ErrorView::IoError { path: join(dir, ".env.example"@), source: source@ },
        ),
        _ => match p.config {
            Err(e) => Err(e@),
            Ok(cfg) => if config_lang_error(cfg) is Some {
                Err(config_lang_error(cfg)->0)
            } else if validation_issues(dir, p).len() > 0 {
                Err(ErrorView::ValidationFailed(join_with(validation_issues(dir, p), "; "@)))
            } else {
                Ok(healthy_message(dir, p))
            },
        },
    }
}

pub open spec fn text_result_view(r: Result<String, AgentDevexError>) -> Result<Seq<char>, ErrorView> {
    match r {
        Ok(s) => Ok(s@),
        Err(e) => Err(e@),
    }
}

fn push_issue(issues: &mut Vec<String>, text: String)
    ensures
        string_views(final(issues)@) == string_views(old(issues)@).push(text@),
{
    issues.push(text);
    assert(string_views(issues@) =~= string_views(old(issues)@).push(text@));
}

fn check_env_key(issues: &mut Vec<String>, raw: &str, key: &str, issue: &str)
    ensures
        string_views(final(issues)@) == string_views(old(issues)@) + issue_if(
            !contains(raw@, key@),
            issue@,
        ),
{
    if !contains_str(raw, key) {
        push_issue(issues, String::from_str(issue));
    } else {
        assert(string_views(issues@) =~= string_views(issues@) + Seq::<Seq<char>>::empty());
    }
}

/// Push `text` when `cond` holds.
fn issue_when(issues: &mut Vec<String>, cond: bool, text: String)
    ensures
        string_views(final(issues)@) == string_views(old(issues)@) + issue_if(cond, text@),
{
    if cond {
        push_issue(issues, text);
    } else {
        assert(string_views(issues@) =~= string_views(issues@) + Seq::<Seq<char>>::empty());
    }
}

/// The problems found in the project layout, in reporting order.
fn collect_layout_issues(project_dir: &str, probe: &ProjectProbe) -> (issues: Vec<String>)
    ensures
        string_views(issues@) == layout_issues(project_dir@, *probe),
{
    let mut issues: Vec<String> = Vec::new();
    let manifest = contract_manifest(project_dir);
    issue_when(
        &mut issues,
        !probe.manifest,
        concat2("missing contract manifest ", manifest.as_str()),
    );
    let crate_dir = contract_crate_dir(project_dir);
    let src = join_path(crate_dir.as_str(), "src");
    let lib = join_path(src.as_str(), "lib.rs");
    issue_when(&mut issues, !probe.contract_lib, concat2("missing contract source ", lib.as_str()));
    let agent = agent_dir(project_dir);
    let has_ts = probe.package_json && probe.index_ts;
    let has_py = probe.pyproject && probe.server_py;
    issue_when(
        &mut issues,
        !has_ts && !has_py,
        concat3("missing MCP server under ", agent.as_str(), " (expected TypeScript or Python layout)"),
    );
    let ghost first = string_views(issues@);
    issue_when(&mut issues, !probe.readme, String::from_str("missing project README.md"));
    let env_missing = match &probe.env_example {
        EnvExample::Missing => true,
        _ => false,
    };
    issue_when(&mut issues, env_missing, String::from_str("missing .env.example"));
    issue_when(&mut issues, !probe.gitignore, String::from_str("missing .gitignore"));
    issue_when(&mut issues, !probe.config_file, String::from_str("missing agent-devex.toml"));
    proof {
        let p = *probe;
        assert(first =~= issue_if(!p.manifest, "missing contract manifest "@ + join(contract_crate_path(project_dir@), "Cargo.toml"@))
            + issue_if(
            !p.contract_lib,
            "missing contract source "@ + join(join(contract_crate_path(project_dir@), "src"@), "lib.rs"@),
        ) + issue_if(
            !has_ts_layout(p) && !has_py_layout(p),
            "missing MCP server under "@ + join(project_dir@, "agent"@)
                + " (expected TypeScript or Python layout)"@,
        ));
        assert(string_views(issues@) =~= layout_issues(project_dir@, p));
    }
    issues
}

/// Verify a generated project has the expected layout and parseable config.
/// On success, the line to report is returned.
pub fn cmd_validate(project_dir: &str, probe: ProjectProbe) -> (r: Result<String, AgentDevexError>)
    ensures
        text_result_view(r) == validation_result(project_dir@, probe),
{
    let mut issues = collect_layout_issues(project_dir, &probe);
    match &probe.env_example {
        EnvExample::Unreadable { source } => {
            let path = join_path(project_dir, ".env.example");
            return Err(
                AgentDevexError::IoError { path, source: String::from_str(source.as_str()) },
            );
        },
        EnvExample::Text(raw) => {
            let ghost before = string_views(issues@);
            check_env_key(
                &mut issues,
                raw.as_str(),
                "STELLAR_SECRET_KEY",
                ".env.example missing STELLAR_SECRET_KEY",
            );
            check_env_key(
                &mut issues,
                raw.as_str(),
                "AGENTPAY_CONTRACT_ID",
                ".env.example missing AGENTPAY_CONTRACT_ID",
            );
            check_env_key(
                &mut issues,
                raw.as_str(),
                "STELLAR_ACCOUNT",
                ".env.example missing STELLAR_ACCOUNT",
            );
            proof {
                assert(string_views(issues@) =~= before + env_key_issues(raw@));
            }
        },
        EnvExample::Missing => {
            assert(string_views(issues@) =~= layout_issues(project_dir@, probe) + Seq::<
                Seq<char>,
            >::empty());
        },
    }
    assert(string_views(issues@) == validation_issues(project_dir@, probe));
    let has_ts = probe.package_json && probe.index_ts;
    match probe.config {
        Err(e) => {
            return Err(e);
        },
        Ok(Some(cfg)) => {
            match cfg.parsed_default_lang() {
                Some(Err(e)) => {
                    return Err(e);
                },
                _ => {},
            }
        },
        Ok(None) => {},
    }
    if issues.len() > 0 {
        return Err(AgentDevexError::ValidationFailed(join_strings(&issues, "; ")));
    }
    let kind = if has_ts {
        "TypeScript"
    } else {
        "Python"
    };
    let mut msg = concat3("Project ", project_dir, " looks healthy (");
    msg.append(kind);
    msg.append(" MCP + AgentPay contract).");
    Ok(msg)
}

} // verus!

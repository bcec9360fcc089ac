//! Canonical paths inside an Agent-Devex generated project.
//!
//! Command implementations resolve locations through this module so `init`,
//! `deploy`, and later commands stay aligned with the scaffold layout.
//! Paths are text with `/` as the separator.

use vstd::prelude::*;
use vstd::string::*;

use crate::errors::concat3;

verus! {

/// Directory name for generated Soroban contracts.
pub const CONTRACTS_DIR: &'static str = "contracts";

/// Crate name of the default AgentPay integration contract.
pub const AGENT_PAY_CONTRACT: &'static str = "agent_pay_integration";

/// Directory name for the generated MCP server.
pub const AGENT_DIR: &'static str = "agent";

/// Directory name for the generated MCP server sources copied from the
/// language template.
pub const SERVER_DIR: &'static str = "server";

/// `Path::join` as on Unix-like systems, where the separator is `/`: a
/// part that starts at the root replaces the base; otherwise the part is
/// appended, with a separator unless the base is empty or already ends in
/// one.
pub open spec fn join(base: Seq<char>, part: Seq<char>) -> Seq<char> {
    if part.len() > 0 && part[0] == '/' {
        part
    } else if base.len() == 0 || base.last() == '/' {
        base + part
    } else {
        base + seq!['/'] + part
    }
}

/// `Path::join`.
pub fn join_path(base: &str, part: &str) -> (r: String)
    ensures
        r@ == join(base@, part@),
{
    let m = part.unicode_len();
    if m > 0 && part.get_char(0) == '/' {
        return String::from_str(part);
    }
    let n = base.unicode_len();
    if n == 0 || base.get_char(n - 1) == '/' {
        let mut r = String::from_str(base);
        r.append(part);
        r
    } else {
        let r = concat3(base, "/", part);
        proof {
            reveal_strlit("/");
            assert("/"@ =~= seq!['/']);
        }
        r
    }
}

/// `<project>/contracts/agent_pay_integration`.
pub open spec fn contract_crate_path(project_dir: Seq<char>) -> Seq<char> {
    join(join(project_dir, "contracts"@), "agent_pay_integration"@)
}

/// Root of the default contract crate: `<project>/contracts/agent_pay_integration`.
pub fn contract_crate_dir(project_dir: &str) -> (r: String)
    ensures
        r@ == contract_crate_path(project_dir@),
{
    let contracts = join_path(project_dir, CONTRACTS_DIR);
    join_path(contracts.as_str(), AGENT_PAY_CONTRACT)
}

/// Manifest path for the default contract crate.
pub fn contract_manifest(project_dir: &str) -> (r: String)
    ensures
        r@ == join(contract_crate_path(project_dir@), "Cargo.toml"@),
{
    let dir = contract_crate_dir(project_dir);
    join_path(dir.as_str(), "Cargo.toml")
}

/// MCP agent directory: `<project>/agent`.
pub fn agent_dir(project_dir: &str) -> (r: String)
    ensures
        r@ == join(project_dir@, "agent"@),
{
    join_path(project_dir, AGENT_DIR)
}

/// MCP server directory: `<project>/server`.
pub fn server_dir(project_dir: &str) -> (r: String)
    ensures
        r@ == join(project_dir@, "server"@),
{
    join_path(project_dir, SERVER_DIR)
}

/// Stellar WASM output root for a contract crate (`target/wasm32-unknown-unknown`).
pub fn wasm_target_root(contract_dir: &str) -> (r: String)
    ensures
        r@ == join(join(contract_dir@, "target"@), "wasm32-unknown-unknown"@),
{
    let target = join_path(contract_dir, "target");
    join_path(target.as_str(), "wasm32-unknown-unknown")
}

/// Joining two relative parts one after the other is joining them at once,
/// with a separator between them.
pub(crate) proof fn lemma_join_twice(base: Seq<char>, x: Seq<char>, y: Seq<char>)
    requires
        x.len() > 0,
        x[0] != '/',
        x.last() != '/',
        y.len() > 0,
        y[0] != '/',
    ensures
        join(join(base, x), y) == join(base, x + "/"@ + y),
{
    reveal_strlit("/");
    assert("/"@ =~= seq!['/']);
    let xy = x + "/"@ + y;
    assert(xy[0] == x[0]);
    let bx = join(base, x);
    assert(bx.len() > 0 && bx.last() == x.last());
    if base.len() == 0 || base.last() == '/' {
        assert(join(bx, y) =~= base + xy);
    } else {
        assert(join(bx, y) =~= base + seq!['/'] + xy);
    }
}

/// Joining a relative part onto a base that is not empty places the part
/// below the base: the result starts with the base followed by a separator
/// (or with the base itself when it already ends in one).
pub proof fn lemma_join_below(base: Seq<char>, part: Seq<char>)
    requires
        base.len() > 0,
        part.len() == 0 || part[0] != '/',
    ensures
        join(base, part).len() == base.len() + part.len() + (if base.last() == '/' { 0int } else { 1int }),
        join(base, part).subrange(0, base.len() as int) == base,
        base.last() != '/' ==> join(base, part)[base.len() as int] == '/',
        join(base, part).skip(join(base, part).len() - part.len()) == part,
{
    let j = join(base, part);
    assert(j.subrange(0, base.len() as int) =~= base);
    assert(j.skip(j.len() - part.len()) =~= part);
}

} // verus!

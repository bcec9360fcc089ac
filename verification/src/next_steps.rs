//! User-facing next-step copy after successful commands.

use vstd::prelude::*;
use vstd::string::*;

use crate::errors::{concat2, concat3};
use crate::output::{message_views, Level, Message};
use crate::Lang;

verus! {

/// The lines shown after `init` created `project_name`.
pub open spec fn after_init_lines(project_name: Seq<char>, lang: Lang) -> Seq<(Level, Seq<char>)> {
    seq![
        (Level::Success, "Created "@ + project_name + "/"@),
        (Level::Hint, "  contracts/agent_pay_integration  Soroban + AgentPay/AgentGuard"@),
        (Level::Hint, match lang {
            Lang::Ts => "  agent/                          TypeScript MCP server"@,
            Lang::Py => "  agent/                          Python MCP server"@,
        }),
        (Level::Hint, "Next: cd "@ + project_name + " && agent-devex validate --project-dir ."@),
        (
            Level::Hint,
            "      stellar contract build --manifest-path contracts/agent_pay_integration/Cargo.toml"@,
        ),
        (Level::Hint, match lang {
            Lang::Ts => "      cd agent && npm install && npx tsx src/index.ts"@,
            Lang::Py => "      cd agent && uv sync && uv run python src/server.py"@,
        }),
    ]
}

pub fn after_init(project_name: &str, lang: Lang) -> (v: Vec<Message>)
    ensures
        message_views(v@) == after_init_lines(project_name@, lang),
{
    let mut v = Vec::new();
    v.push(Message::success(concat3("Created ", project_name, "/")));
    v.push(
        Message::hint(
            String::from_str("  contracts/agent_pay_integration  Soroban + AgentPay/AgentGuard"),
        ),
    );
    let (agent_line, run_line) = match lang {
        Lang::Ts => (
            "  agent/                          TypeScript MCP server",
            "      cd agent && npm install && npx tsx src/index.ts",
        ),
        Lang::Py => (
            "  agent/                          Python MCP server",
            "      cd agent && uv sync && uv run python src/server.py",
        ),
    };
    v.push(Message::hint(String::from_str(agent_line)));
    v.push(
        Message::hint(concat3("Next: cd ", project_name, " && agent-devex validate --project-dir .")),
    );
    v.push(
        Message::hint(
            String::from_str(
                "      stellar contract build --manifest-path contracts/agent_pay_integration/Cargo.toml",
            ),
        ),
    );
    v.push(Message::hint(String::from_str(run_line)));
    assert(message_views(v@) =~= after_init_lines(project_name@, lang));
    v
}

/// The lines shown after a build when no `STELLAR_ACCOUNT` is set.
pub open spec fn after_deploy_without_account_lines(wasm: Seq<char>, network: Seq<char>) -> Seq<
    (Level, Seq<char>),
> {
    seq![
        (Level::Warn, "Built "@ + wasm + ". Set STELLAR_ACCOUNT and re-run deploy, or run:"@),
        (
            Level::Hint,
            "  stellar contract deploy --network "@ + network
                + " --source-account <ACCOUNT> --wasm "@ + wasm,
        ),
    ]
}

pub fn after_deploy_without_account(wasm: &str, network: &str) -> (v: Vec<Message>)
    ensures
        message_views(v@) == after_deploy_without_account_lines(wasm@, network@),
{
    let mut v = Vec::new();
    v.push(
        Message::warn(concat3("Built ", wasm, ". Set STELLAR_ACCOUNT and re-run deploy, or run:")),
    );
    let mut hint = concat3(
        "  stellar contract deploy --network ",
        network,
        " --source-account <ACCOUNT> --wasm ",
    );
    hint.append(wasm);
    v.push(Message::hint(hint));
    assert(message_views(v@) =~= after_deploy_without_account_lines(wasm@, network@));
    v
}

/// The line shown after a deploy finished.
pub open spec fn after_deploy_success_lines(network: Seq<char>) -> Seq<(Level, Seq<char>)> {
    seq![
        (
            Level::Success,
            "Deploy to "@ + network
                + " finished. Set AGENTPAY_CONTRACT_ID from the CLI output, then start the MCP server."@,
        ),
    ]
}

pub fn after_deploy_success(network: &str) -> (v: Vec<Message>)
    ensures
        message_views(v@) == after_deploy_success_lines(network@),
{
    let mut v = Vec::new();
    v.push(
        Message::success(
            concat3(
                "Deploy to ",
                network,
                " finished. Set AGENTPAY_CONTRACT_ID from the CLI output, then start the MCP server.",
            ),
        ),
    );
    assert(message_views(v@) =~= after_deploy_success_lines(network@));
    v
}

} // verus!

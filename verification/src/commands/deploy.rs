//! `deploy`: compile the Soroban contract and deploy it to a Stellar network.
//!
//! The command alternates work outside the library (running `stellar`,
//! listing build directories, reading `STELLAR_ACCOUNT`) with decisions.
//! [`cmd_deploy`] makes each decision from the event the program reports,
//! and names the next piece of work.

use vstd::prelude::*;
use vstd::string::*;

use crate::config::opt_view;
use crate::errors::{AgentDevexError, ErrorView};
use crate::next_steps::{
    after_deploy_success, after_deploy_success_lines, after_deploy_without_account,
    after_deploy_without_account_lines,
};
use crate::output::{message_views, Level, Message};
use crate::paths::{
    contract_crate_dir, contract_crate_path, contract_manifest, join, join_path, wasm_target_root,
};
use crate::process::{run_stellar, stellar_invocation, tool_result, ToolInvocation, ToolOutcome};
use crate::state::{state_path, ProjectState};
use crate::text::{ends_with, ends_with_str, eq_str, string_views, trim, trim_str};

verus! {

/// The network asked for: `--network`, else the configured network, else
/// `testnet`.
pub open spec fn network_choice(cli: Option<Seq<char>>, configured: Option<Seq<char>>) -> Seq<char> {
    match cli {
        Some(c) => c,
        None => match configured {
            Some(c) => c,
            None => "testnet"@,
        },
    }
}

/// The networks that can be deployed to.
pub open spec fn known_network(n: Seq<char>) -> bool {
    n == "testnet"@ || n == "mainnet"@
}

/// The error for a network that cannot be deployed to.
pub open spec fn unknown_network_error(n: Seq<char>) -> ErrorView {
    ErrorView::InvalidConfigValue { key: "network"@, value: n }
}

/// The network deployed to (see [`network_choice`]); only `testnet` and
/// `mainnet` are accepted.
pub open spec fn deploy_network(cli: Option<Seq<char>>, configured: Option<Seq<char>>) -> Result<
    Seq<char>,
    ErrorView,
> {
    let n = network_choice(cli, configured);
    if known_network(n) {
        Ok(n)
    } else {
        Err(unknown_network_error(n))
    }
}

pub open spec fn opt_str_view(o: Option<&str>) -> Option<Seq<char>> {
    match o {
        Some(s) => Some(s@),
        None => None,
    }
}

pub open spec fn text_result_view(r: Result<String, AgentDevexError>) -> Result<Seq<char>, ErrorView> {
    match r {
        Ok(s) => Ok(s@),
        Err(e) => Err(e@),
    }
}

/// The network asked for (see [`network_choice`]), not yet checked.
pub fn requested_network(cli: Option<&str>, configured: Option<&str>) -> (r: String)
    ensures
        r@ == network_choice(opt_str_view(cli), opt_str_view(configured)),
{
    let n: &str = match cli {
        Some(c) => c,
        None => match configured {
            Some(c) => c,
            None => "testnet",
        },
    };
    String::from_str(n)
}

/// Refuse a network other than `testnet` and `mainnet`.
fn check_network(network: &str) -> (r: Result<(), AgentDevexError>)
    ensures
        known_network(network@) ==> r is Ok,
        !known_network(network@) ==> (r matches Err(e) && e@ == unknown_network_error(network@)),
{
    if eq_str(network, "testnet") || eq_str(network, "mainnet") {
        Ok(())
    } else {
        Err(
            AgentDevexError::InvalidConfigValue {
                key: String::from_str("network"),
                value: String::from_str(network),
            },
        )
    }
}

/// Settle the network to deploy to (see [`deploy_network`]).
pub fn resolve_network(cli: Option<&str>, configured: Option<&str>) -> (r: Result<String, AgentDevexError>)
    ensures
        text_result_view(r) == deploy_network(opt_str_view(cli), opt_str_view(configured)),
{
    let n = requested_network(cli, configured);
    match check_network(n.as_str()) {
        Ok(()) => Ok(n),
        Err(e) => Err(e),
    }
}

/// A file name with the extension `wasm` (`Path::extension() == Some("wasm")`):
/// it ends in `.wasm` and that dot is not its first character.
pub open spec fn is_wasm_file(name: Seq<char>) -> bool {
    name.len() > 5 && ends_with(name, ".wasm"@)
}

/// What listing one build directory gave.
#[derive(Debug)]
pub enum WasmDir {
    /// The path is not a directory.
    Missing,
    /// The directory or one of its entries could not be read.
    Unreadable { source: String },
    /// The names of the directory's entries, in the order they were listed.
    Entries(Vec<String>),
}

/// A build directory and what listing it gave.
#[derive(Debug)]
pub struct WasmListing {
    pub dir: String,
    pub contents: WasmDir,
}

/// The paths of the `.wasm` files among `names` in `dir`, in order.
pub open spec fn wasm_paths(dir: Seq<char>, names: Seq<Seq<char>>) -> Seq<Seq<char>>
    decreases names.len(),
{
    if names.len() == 0 {
        seq![]
    } else {
        wasm_paths(dir, names.drop_last()) + if is_wasm_file(names.last()) {
            seq![join(dir, names.last())]
        } else {
            seq![]
        }
    }
}

/// All `.wasm` files of the listed directories in order, or the first
/// directory that could not be read.
pub open spec fn wasm_search(listings: Seq<WasmListing>) -> Result<Seq<Seq<char>>, ErrorView>
    decreases listings.len(),
{
    if listings.len() == 0 {
        Ok(seq![])
    } else {
        match wasm_search(listings.drop_last()) {
            Err(e) => Err(e),
            Ok(found) => match listings.last().contents {
                WasmDir::Missing => Ok(found),
                WasmDir::Unreadable { source } => Err(
                    ErrorView::IoError { path: listings.last().dir@, source: source@ },
                ),
                WasmDir::Entries(names) => Ok(
                    found + wasm_paths(listings.last().dir@, string_views(names@)),
                ),
            },
        }
    }
}

/// The built contract: the first `.wasm` found, searching the listings in
/// order (release before debug).
pub open spec fn located_wasm(listings: Seq<WasmListing>) -> Result<Seq<char>, ErrorView> {
    match wasm_search(listings) {
        Err(e) => Err(e),
        Ok(found) => if found.len() == 0 {
            Err(ErrorView::WasmNotFound)
        } else {
            Ok(found[0])
        },
    }
}

/// The directories searched for the built contract, in order:
/// `target/wasm32-unknown-unknown/release`, then `.../debug`.
pub fn wasm_search_dirs(contract_dir: &str) -> (v: Vec<String>)
    ensures
        string_views(v@) == seq![
            join(join(join(contract_dir@, "target"@), "wasm32-unknown-unknown"@), "release"@),
            join(join(join(contract_dir@, "target"@), "wasm32-unknown-unknown"@), "debug"@),
        ],
{
    let root = wasm_target_root(contract_dir);
    let mut v = Vec::new();
    v.push(join_path(root.as_str(), "release"));
    v.push(join_path(root.as_str(), "debug"));
    assert(string_views(v@) =~= seq![
        join(join(join(contract_dir@, "target"@), "wasm32-unknown-unknown"@), "release"@),
        join(join(join(contract_dir@, "target"@), "wasm32-unknown-unknown"@), "debug"@),
    ]);
    v
}

fn collect_wasm(dir: &str, names: &Vec<String>, found: &mut Vec<String>)
    ensures
        string_views(final(found)@) == string_views(old(found)@) + wasm_paths(
            dir@,
            string_views(names@),
        ),
{
    let ghost start = string_views(found@);
    let ghost nv = string_views(names@);
    let mut i: usize = 0;
    proof {
        assert(nv.take(0) =~= Seq::<Seq<char>>::empty());
        assert(string_views(found@) =~= start + wasm_paths(dir@, nv.take(0)));
    }
    while i < names.len()
        invariant
            i <= names.len(),
            nv == string_views(names@),
            string_views(found@) == start + wasm_paths(dir@, nv.take(i as int)),
        decreases names.len() - i,
    {
        proof {
            assert(nv.take(i + 1).drop_last() =~= nv.take(i as int));
            assert(nv.take(i + 1).last() == names@[i as int]@);
        }
        let ghost before = string_views(found@);
        let name = names[i].as_str();
        if name.unicode_len() > 5 && ends_with_str(name, ".wasm") {
            found.push(join_path(dir, name));
            assert(string_views(found@) =~= before + seq![join(dir@, name@)]);
        } else {
            assert(string_views(found@) =~= before + Seq::<Seq<char>>::empty());
        }
        i = i + 1;
    }
    assert(nv.take(names.len() as int) =~= nv);
}

/// Locate the built contract among the listed build directories.
pub fn find_wasm(listings: &Vec<WasmListing>) -> (r: Result<String, AgentDevexError>)
    ensures
        text_result_view(r) == located_wasm(listings@),
{
    let mut found: Vec<String> = Vec::new();
    let mut i: usize = 0;
    proof {
        assert(listings@.take(0) =~= Seq::<WasmListing>::empty());
        assert(string_views(found@) =~= Seq::<Seq<char>>::empty());
    }
    while i < listings.len()
        invariant
            i <= listings.len(),
            wasm_search(listings@.take(i as int)) == Ok::<Seq<Seq<char>>, ErrorView>(
                string_views(found@),
            ),
        decreases listings.len() - i,
    {
        proof {
            assert(listings@.take(i + 1).drop_last() =~= listings@.take(i as int));
            assert(listings@.take(i + 1).last() == listings@[i as int]);
        }
        match &listings[i].contents {
            WasmDir::Missing => {},
            WasmDir::Unreadable { source } => {
                proof {
                    lemma_search_stops(listings@, i + 1);
                    assert(listings@.take(listings.len() as int) =~= listings@);
                }
                return Err(
                    AgentDevexError::IoError {
                        path: String::from_str(listings[i].dir.as_str()),
                        source: String::from_str(source.as_str()),
                    },
                );
            },
            WasmDir::Entries(names) => {
                collect_wasm(listings[i].dir.as_str(), names, &mut found);
            },
        }
        i = i + 1;
    }
    proof {
        assert(listings@.take(listings.len() as int) =~= listings@);
    }
    if found.len() == 0 {
        return Err(AgentDevexError::WasmNotFound);
    }
    Ok(String::from_str(found[0].as_str()))
}

/// Once a prefix of the listings fails, the whole search fails the same way.
proof fn lemma_search_stops(listings: Seq<WasmListing>, k: int)
    requires
        0 <= k <= listings.len(),
        wasm_search(listings.take(k)) is Err,
    ensures
        wasm_search(listings) == wasm_search(listings.take(k)),
    decreases listings.len() - k,
{
    if k < listings.len() {
        assert(listings.take(k + 1).drop_last() =~= listings.take(k));
        lemma_search_stops(listings, k + 1);
    } else {
        assert(listings.take(k) =~= listings);
    }
}

/// The index just past the last newline among the first `n` characters of
/// `t`, or 0 when there is none.
pub open spec fn line_start(t: Seq<char>, n: int) -> int
    decreases n,
{
    if n <= 0 {
        0
    } else if t[n - 1] == '\n' {
        n
    } else {
        line_start(t, n - 1)
    }
}

/// The text after the last newline of `t` (all of `t` when it has none).
pub open spec fn last_line(t: Seq<char>) -> Seq<char> {
    t.subrange(line_start(t, t.len() as int), t.len() as int)
}

/// The contract id that `stellar contract deploy` prints as the last line
/// of its output; none when it printed nothing.
pub open spec fn deployed_contract_id(stdout: Seq<char>) -> Option<Seq<char>> {
    let t = trim(stdout);
    if t.len() == 0 {
        None
    } else {
        Some(trim(last_line(t)))
    }
}

proof fn lemma_line_start_bounds(t: Seq<char>, n: int)
    requires
        0 <= n <= t.len(),
    ensures
        0 <= line_start(t, n) <= n,
    decreases n,
{
    if n > 0 && t[n - 1] != '\n' {
        lemma_line_start_bounds(t, n - 1);
    }
}

/// The contract id in the output of a successful deploy (see
/// [`deployed_contract_id`]).
pub fn contract_id_from_output(stdout: &str) -> (r: Option<String>)
    ensures
        opt_view(r) == deployed_contract_id(stdout@),
{
    let t = trim_str(stdout);
    let n = t.unicode_len();
    if n == 0 {
        return None;
    }
    let mut j: usize = n;
    while j > 0 && t.get_char(j - 1) != '\n'
        invariant
            j <= n,
            n == t@.len(),
            line_start(t@, j as int) == line_start(t@, n as int),
        decreases j,
    {
        j = j - 1;
    }
    proof {
        lemma_line_start_bounds(t@, n as int);
    }
    let line = t.substring_char(j, n);
    Some(String::from_str(trim_str(line)))
}

/// What the program reports to [`cmd_deploy`].
#[derive(Debug)]
pub enum DeployEvent {
    /// The command starts; tells whether the contract manifest is a file.
    Start { manifest_exists: bool },
    /// The contract build finished.
    Built { outcome: ToolOutcome },
    /// The build directories were listed.
    Listed { listings: Vec<WasmListing> },
    /// `STELLAR_ACCOUNT` was read, for the located contract.
    AccountRead { wasm: String, account: Option<String> },
    /// The deploy of `wasm` finished, printing `stdout`, at `now_unix`
    /// seconds since the Unix epoch when the clock could be read.
    Deployed { wasm: String, outcome: ToolOutcome, stdout: String, now_unix: Option<u64> },
    /// Writing the project state finished.
    StateSaved { result: Result<(), AgentDevexError> },
}

/// What the program does next for `deploy`.
#[derive(Debug)]
pub enum DeployAction {
    /// Run this build and report `Built`.
    Build(ToolInvocation),
    /// Run this deploy and report `Deployed`.
    Deploy(ToolInvocation),
    /// List these directories, in order, and report `Listed`.
    ListWasm { dirs: Vec<String> },
    /// Read `STELLAR_ACCOUNT` and report `AccountRead` with this contract.
    ReadAccount { wasm: String },
    /// Write `state` to the file at `path` and report `StateSaved`.
    SaveState { path: String, state: ProjectState },
    /// Show these lines; the command succeeded.
    Finish(Vec<Message>),
    /// The command failed with this error.
    Fail(AgentDevexError),
}

pub open spec fn invocation_view(t: ToolInvocation) -> (Seq<char>, Seq<Seq<char>>, Seq<char>, Seq<char>) {
    (t.program@, string_views(t.args@), t.cwd@, t.label@)
}

/// The arguments of the deploy invocation.
pub open spec fn deploy_args(network: Seq<char>, account: Seq<char>, wasm: Seq<char>) -> Seq<Seq<char>> {
    seq![
        "contract"@,
        "deploy"@,
        "--network"@,
        network,
        "--source-account"@,
        account,
        "--wasm"@,
        wasm,
    ]
}

fn strings(items: &[&str]) -> (v: Vec<String>)
    ensures
        v@.len() == items@.len(),
        forall|i: int| 0 <= i < items@.len() ==> #[trigger] v@[i]@ == items@[i]@,
{
    let mut v: Vec<String> = Vec::new();
    let mut i: usize = 0;
    while i < items.len()
        invariant
            i <= items@.len(),
            v@.len() == i,
            forall|k: int| 0 <= k < i ==> #[trigger] v@[k]@ == items@[k]@,
        decreases items@.len() - i,
    {
        v.push(String::from_str(items[i]));
        i = i + 1;
    }
    v
}

/// Decide the next step of `deploy` to `network` for the project in
/// `project_dir`, given what the program reports.
pub fn cmd_deploy(project_dir: &str, network: &str, event: DeployEvent) -> (a: DeployAction)
    ensures
        match event {
            DeployEvent::Start { manifest_exists } => if !known_network(network@) {
                a matches DeployAction::Fail(e) && e@ == unknown_network_error(network@)
            } else if manifest_exists {
                a matches DeployAction::Build(t) && invocation_view(t) == (
                    "stellar"@,
                    seq!["contract"@, "build"@],
                    contract_crate_path(project_dir@),
                    "stellar contract build"@,
                )
            } else {
                a matches DeployAction::Fail(e) && e@ == (ErrorView::ConfigNotFound {
                    path: join(contract_crate_path(project_dir@), "Cargo.toml"@),
                })
            },
            DeployEvent::Built { outcome } => match tool_result(
                "stellar"@,
                "stellar contract build"@,
                outcome,
            ) {
                Err(e) => a matches DeployAction::Fail(x) && x@ == e,
                Ok(_) => a matches DeployAction::ListWasm { dirs } && string_views(dirs@) == seq![
                    join(
                        join(join(contract_crate_path(project_dir@), "target"@), "wasm32-unknown-unknown"@),
                        "release"@,
                    ),
                    join(
                        join(join(contract_crate_path(project_dir@), "target"@), "wasm32-unknown-unknown"@),
                        "debug"@,
                    ),
                ],
            },
            DeployEvent::Listed { listings } => match located_wasm(listings@) {
                Err(e) => a matches DeployAction::Fail(x) && x@ == e,
                Ok(w) => a matches DeployAction::ReadAccount { wasm } && wasm@ == w,
            },
            DeployEvent::AccountRead { wasm, account } => match account {
                None => a matches DeployAction::Finish(m) && message_views(m@)
                    == after_deploy_without_account_lines(wasm@, network@),
                Some(acc) => a matches DeployAction::Deploy(t) && invocation_view(t) == (
                    "stellar"@,
                    deploy_args(network@, acc@, wasm@),
                    project_dir@,
                    "stellar contract deploy"@,
                ),
            },
            DeployEvent::Deployed { wasm, outcome, stdout, now_unix } => match tool_result(
                "stellar"@,
                "stellar contract deploy"@,
                outcome,
            ) {
                Err(e) => a matches DeployAction::Fail(x) && x@ == e,
                Ok(_) => a matches DeployAction::SaveState { path, state } && {
                    &&& path@ == join(join(project_dir@, ".agent-devex"@), "state.toml"@)
                    &&& opt_view(state.network) == Some(network@)
                    &&& opt_view(state.contract_id) == deployed_contract_id(stdout@)
                    &&& opt_view(state.wasm_path) == Some(wasm@)
                    &&& state.last_deployed_unix == now_unix
                },
            },
            DeployEvent::StateSaved { result } => match result {
                Err(e) => a matches DeployAction::Fail(x) && x@ == e@,
                Ok(_) => a matches DeployAction::Finish(m) && message_views(m@)
                    == after_deploy_success_lines(network@),
            },
        },
{
    match event {
        DeployEvent::Start { manifest_exists } => {
            if let Err(e) = check_network(network) {
                return DeployAction::Fail(e);
            }
            if !manifest_exists {
                return DeployAction::Fail(
                    AgentDevexError::ConfigNotFound { path: contract_manifest(project_dir) },
                );
            }
            let contract_dir = contract_crate_dir(project_dir);
            let args = strings(&["contract", "build"]);
            assert(string_views(args@) =~= seq!["contract"@, "build"@]);
            DeployAction::Build(
                stellar_invocation(args, contract_dir.as_str(), "stellar contract build"),
            )
        },
        DeployEvent::Built { outcome } => {
            match run_stellar("stellar contract build", &outcome) {
                Err(e) => DeployAction::Fail(e),
                Ok(()) => {
                    let contract_dir = contract_crate_dir(project_dir);
                    DeployAction::ListWasm { dirs: wasm_search_dirs(contract_dir.as_str()) }
                },
            }
        },
        DeployEvent::Listed { listings } => {
            match find_wasm(&listings) {
                Err(e) => DeployAction::Fail(e),
                Ok(wasm) => DeployAction::ReadAccount { wasm },
            }
        },
        DeployEvent::AccountRead { wasm, account } => {
            match account {
                None => DeployAction::Finish(
                    after_deploy_without_account(wasm.as_str(), network),
                ),
                Some(acc) => {
                    let args = strings(
                        &[
                            "contract",
                            "deploy",
                            "--network",
                            network,
                            "--source-account",
                            acc.as_str(),
                            "--wasm",
                            wasm.as_str(),
                        ],
                    );
                    assert(string_views(args@) =~= deploy_args(network@, acc@, wasm@));
                    DeployAction::Deploy(
                        stellar_invocation(args, project_dir, "stellar contract deploy"),
                    )
                },
            }
        },
        DeployEvent::Deployed { wasm, outcome, stdout, now_unix } => {
            match run_stellar("stellar contract deploy", &outcome) {
                Err(e) => DeployAction::Fail(e),
                Ok(()) => DeployAction::SaveState {
                    path: state_path(project_dir),
                    state: ProjectState {
                        network: Some(String::from_str(network)),
                        contract_id: contract_id_from_output(stdout.as_str()),
                        wasm_path: Some(wasm),
                        last_deployed_unix: now_unix,
                    },
                },
            }
        },
        DeployEvent::StateSaved { result } => {
            match result {
                Err(e) => DeployAction::Fail(e),
                Ok(()) => DeployAction::Finish(after_deploy_success(network)),
            }
        },
    }
}

} // verus!

use agent_devex::commands::deploy::{
    cmd_deploy, contract_id_from_output, find_wasm, requested_network, resolve_network,
    wasm_search_dirs, DeployAction, DeployEvent,
    WasmDir, WasmListing,
};
use agent_devex::commands::doctor::{
    checks, cmd_doctor, fallback_program, probe_version, CheckOutcome,
};
use agent_devex::commands::init::{cmd_init, lang_from_answer, resolve_init_lang, LangChoice};
use agent_devex::commands::status::{cmd_status, StatusProbe};
use agent_devex::commands::validate::{cmd_validate, EnvExample, ProjectProbe};
use agent_devex::config::AgentDevexConfig;
use agent_devex::errors::AgentDevexError;
use agent_devex::fsutil::{is_missing_or_empty_dir, DirProbe};
use agent_devex::output::{Level, Message};
use agent_devex::process::{check_tool_run, run_stellar, ToolOutcome};
use agent_devex::state::ProjectState;
use agent_devex::Lang;

fn texts(v: &[Message]) -> Vec<(Level, String)> {
    v.iter().map(|m| (m.level, m.text.clone())).collect()
}

fn fresh_python_probe() -> ProjectProbe {
    ProjectProbe {
        manifest: true,
        contract_lib: true,
        package_json: false,
        index_ts: false,
        pyproject: true,
        server_py: true,
        readme: true,
        env_example: EnvExample::Text(
            "STELLAR_SECRET_KEY=\nAGENTPAY_CONTRACT_ID=\nSTELLAR_ACCOUNT=\n".to_string(),
        ),
        gitignore: true,
        config_file: true,
        config: Ok(Some(AgentDevexConfig {
            default_lang: Some("py".to_string()),
            ..AgentDevexConfig::default()
        })),
    }
}

fn empty_probe() -> ProjectProbe {
    ProjectProbe {
        manifest: false,
        contract_lib: false,
        package_json: false,
        index_ts: false,
        pyproject: false,
        server_py: false,
        readme: false,
        env_example: EnvExample::Missing,
        gitignore: false,
        config_file: false,
        config: Ok(None),
    }
}

#[test]
fn validate_accepts_fresh_python_project() {
    let msg = cmd_validate("py_agent", fresh_python_probe()).unwrap();
    assert_eq!(msg, "Project py_agent looks healthy (Python MCP + AgentPay contract).");
}

#[test]
fn validate_rejects_empty_directory() {
    let err = cmd_validate("/tmp/x", empty_probe()).unwrap_err();
    let msg = err.message();
    assert!(msg.contains("validation failed") || msg.contains("missing"));
}

#[test]
fn validate_lists_every_issue_in_order() {
    let err = cmd_validate("p", empty_probe()).unwrap_err();
    assert_eq!(
        err.message(),
        "validation failed: missing contract manifest p/contracts/agent_pay_integration/Cargo.toml; \
missing contract source p/contracts/agent_pay_integration/src/lib.rs; \
missing MCP server under p/agent (expected TypeScript or Python layout); \
missing project README.md; missing .env.example; missing .gitignore; missing agent-devex.toml"
    );
    let mut probe = fresh_python_probe();
    probe.env_example = EnvExample::Text("STELLAR_ACCOUNT=x".to_string());
    let err = cmd_validate("p", probe).unwrap_err();
    assert_eq!(
        err.message(),
        "validation failed: .env.example missing STELLAR_SECRET_KEY; .env.example missing AGENTPAY_CONTRACT_ID"
    );
}

#[test]
fn validate_stops_on_unreadable_env_or_bad_config() {
    let mut probe = empty_probe();
    probe.env_example = EnvExample::Unreadable { source: "denied".to_string() };
    match cmd_validate("p", probe) {
        Err(AgentDevexError::IoError { path, source }) => {
            assert_eq!(path, "p/.env.example");
            assert_eq!(source, "denied");
        }
        other => panic!("unexpected {other:?}"),
    }
    let mut probe = fresh_python_probe();
    probe.config = Ok(Some(AgentDevexConfig {
        default_lang: Some("cobol".to_string()),
        ..AgentDevexConfig::default()
    }));
    assert!(matches!(
        cmd_validate("p", probe),
        Err(AgentDevexError::InvalidConfigValue { .. })
    ));
}

#[test]
fn validate_reports_typescript_layout() {
    let mut probe = fresh_python_probe();
    probe.package_json = true;
    probe.index_ts = true;
    assert_eq!(
        cmd_validate("t", probe).unwrap(),
        "Project t looks healthy (TypeScript MCP + AgentPay contract)."
    );
}

#[test]
fn init_fails_when_project_exists() {
    let probe = DirProbe::Directory { has_entries: true };
    let err = cmd_init("taken", Lang::Ts, &probe, &Vec::new()).unwrap_err();
    assert!(err.message().contains("already exists"));
}

#[test]
fn init_creates_directory_and_agent_toml() {
    let assets: Vec<String> = [
        "project/README.md",
        "shared/.env.example",
        "soroban/src/lib.rs",
        "node-mcp/src/index.ts",
        "agent/ts/src/index.ts",
    ]
    .iter()
    .map(|s| s.to_string())
    .collect();
    let plan = cmd_init("demo_init", Lang::Ts, &DirProbe::Missing, &assets).unwrap();
    assert_eq!(plan.agent_toml_path, "demo_init/agent.toml");
    assert_eq!(plan.agent_config.mcp.lang.as_deref(), Some("ts"));
    assert_eq!(plan.files.len(), 5);
    assert!(plan.missing.is_none());
    assert_eq!(plan.messages[0].text, "Created demo_init/");
    assert_eq!(
        plan.messages[4].text,
        "      cd agent && npm install && npx tsx src/index.ts"
    );
}

#[test]
fn init_accepts_empty_directory_and_reports_unreadable() {
    assert!(is_missing_or_empty_dir("d", &DirProbe::Directory { has_entries: false }).unwrap());
    assert!(!is_missing_or_empty_dir("f", &DirProbe::NotADirectory).unwrap());
    let err = is_missing_or_empty_dir("d", &DirProbe::Unreadable { source: "EACCES".into() })
        .unwrap_err();
    assert_eq!(err.message(), "I/O error at d: EACCES");
}

#[test]
fn init_language_choice() {
    assert_eq!(resolve_init_lang(Some(Lang::Py), Some("ts")).unwrap(), LangChoice::Chosen(Lang::Py));
    assert_eq!(resolve_init_lang(None, Some(" TS ")).unwrap(), LangChoice::Chosen(Lang::Ts));
    assert_eq!(resolve_init_lang(None, None).unwrap(), LangChoice::Ask);
    assert!(resolve_init_lang(None, Some("java")).is_err());
    assert_eq!(lang_from_answer(None).unwrap(), Lang::Ts);
    assert_eq!(lang_from_answer(Some("python")).unwrap(), Lang::Py);
}

fn outcome(i: usize, primary: Option<&str>, fallback: Option<&str>) -> CheckOutcome {
    let check = checks().into_iter().nth(i).unwrap();
    CheckOutcome {
        check,
        primary: primary.map(str::to_string),
        fallback: fallback.map(str::to_string),
    }
}

#[test]
fn doctor_reports_each_tool() {
    let outcomes = vec![
        outcome(0, Some("rustc 1.85.0"), None),
        outcome(1, Some("cargo 1.85.0"), None),
        outcome(2, None, None),
        outcome(5, None, Some("Python 3.12.1")),
    ];
    let report = cmd_doctor(&outcomes);
    assert_eq!(report.missing_required, 0);
    assert!(report.failure.is_none());
    assert_eq!(
        texts(&report.messages),
        vec![
            (Level::Success, "Agent-Devex toolchain doctor".to_string()),
            (Level::Hint, "  ok   Rustc        rustc 1.85.0".to_string()),
            (Level::Hint, "  ok   Cargo        cargo 1.85.0".to_string()),
            (
                Level::Hint,
                "  skip stellar-cli  not found — https://developers.stellar.org/docs/tools/developer-tools/cli/stellar-cli"
                    .to_string()
            ),
            (Level::Hint, "  ok   Python       Python 3.12.1".to_string()),
            (
                Level::Success,
                "Required tools are present. Optional gaps only affect deploy or a specific --lang."
                    .to_string()
            ),
        ]
    );
}

#[test]
fn doctor_fails_on_missing_required_tools() {
    let outcomes = vec![outcome(0, None, None), outcome(1, None, Some("ignored"))];
    let report = cmd_doctor(&outcomes);
    assert_eq!(report.missing_required, 2);
    assert_eq!(
        report.failure.as_deref(),
        Some("2 required tool(s) missing — install them before building the CLI")
    );
    assert_eq!(report.messages.len(), 3);
    assert_eq!(
        report.messages[1].text,
        "  need Rustc        not found — Install via https://rustup.rs/"
    );
}

#[test]
fn doctor_probes_python3_only_for_missing_python() {
    let list = checks();
    assert_eq!(list.len(), 7);
    assert_eq!(fallback_program(&list[5], &None).as_deref(), Some("python3"));
    assert_eq!(fallback_program(&list[5], &Some("Python 3".into())), None);
    assert_eq!(fallback_program(&list[0], &None), None);
}

#[test]
fn probe_version_reads_first_line() {
    assert_eq!(probe_version(true, "  v20.1.0\r\nmore\n", "").as_deref(), Some("v20.1.0"));
    assert_eq!(probe_version(true, "\n", " Python 3.11\n").as_deref(), Some("Python 3.11"));
    assert_eq!(probe_version(true, "", ""), None);
    assert_eq!(probe_version(false, "1.0", ""), None);
}

#[test]
fn deploy_network_rules() {
    assert_eq!(resolve_network(Some("mainnet"), Some("testnet")).unwrap(), "mainnet");
    assert_eq!(resolve_network(None, Some("mainnet")).unwrap(), "mainnet");
    assert_eq!(resolve_network(None, None).unwrap(), "testnet");
    assert_eq!(
        resolve_network(Some("devnet"), None).unwrap_err().message(),
        "invalid config value for network: devnet"
    );
}

#[test]
fn deploy_walks_build_then_deploy() {
    match cmd_deploy("p", "testnet", DeployEvent::Start { manifest_exists: false }) {
        DeployAction::Fail(e) => assert_eq!(
            e.message(),
            "config not found: p/contracts/agent_pay_integration/Cargo.toml"
        ),
        other => panic!("unexpected {other:?}"),
    }
    match cmd_deploy("p", "testnet", DeployEvent::Start { manifest_exists: true }) {
        DeployAction::Build(t) => {
            assert_eq!(t.program, "stellar");
            assert_eq!(t.args, vec!["contract", "build"]);
            assert_eq!(t.cwd, "p/contracts/agent_pay_integration");
            assert_eq!(t.label, "stellar contract build");
        }
        other => panic!("unexpected {other:?}"),
    }
    let failed = ToolOutcome::Exited { success: false, status: "exit status: 1".into() };
    match cmd_deploy("p", "testnet", DeployEvent::Built { outcome: failed }) {
        DeployAction::Fail(e) => {
            assert_eq!(e.message(), "stellar contract build exited with exit status: 1")
        }
        other => panic!("unexpected {other:?}"),
    }
    let ok = ToolOutcome::Exited { success: true, status: "exit status: 0".into() };
    match cmd_deploy("p", "testnet", DeployEvent::Built { outcome: ok }) {
        DeployAction::ListWasm { dirs } => assert_eq!(
            dirs,
            wasm_search_dirs("p/contracts/agent_pay_integration")
        ),
        other => panic!("unexpected {other:?}"),
    }
    match cmd_deploy(
        "p",
        "testnet",
        DeployEvent::AccountRead { wasm: "w.wasm".into(), account: Some("alice".into()) },
    ) {
        DeployAction::Deploy(t) => {
            assert_eq!(
                t.args,
                vec![
                    "contract",
                    "deploy",
                    "--network",
                    "testnet",
                    "--source-account",
                    "alice",
                    "--wasm",
                    "w.wasm"
                ]
            );
            assert_eq!(t.cwd, "p");
        }
        other => panic!("unexpected {other:?}"),
    }
    match cmd_deploy(
        "p",
        "mainnet",
        DeployEvent::AccountRead { wasm: "w.wasm".into(), account: None },
    ) {
        DeployAction::Finish(m) => assert_eq!(
            texts(&m),
            vec![
                (
                    Level::Warn,
                    "Built w.wasm. Set STELLAR_ACCOUNT and re-run deploy, or run:".to_string()
                ),
                (
                    Level::Hint,
                    "  stellar contract deploy --network mainnet --source-account <ACCOUNT> --wasm w.wasm"
                        .to_string()
                ),
            ]
        ),
        other => panic!("unexpected {other:?}"),
    }
    let spawn = ToolOutcome::SpawnFailed { source: "not found".into() };
    match cmd_deploy(
        "p",
        "testnet",
        DeployEvent::Deployed {
            wasm: "w.wasm".into(),
            outcome: spawn,
            stdout: String::new(),
            now_unix: None,
        },
    ) {
        DeployAction::Fail(e) => assert_eq!(
            e.message(),
            "stellar contract deploy failed to start — is `stellar` installed and on PATH?"
        ),
        other => panic!("unexpected {other:?}"),
    }
}

#[test]
fn find_wasm_prefers_release_and_needs_an_extension() {
    let listings = vec![
        WasmListing {
            dir: "t/release".into(),
            contents: WasmDir::Entries(vec![".wasm".into(), "deps".into(), "a.wasm".into()]),
        },
        WasmListing { dir: "t/debug".into(), contents: WasmDir::Entries(vec!["b.wasm".into()]) },
    ];
    assert_eq!(find_wasm(&listings).unwrap(), "t/release/a.wasm");
    let none = vec![
        WasmListing { dir: "t/release".into(), contents: WasmDir::Missing },
        WasmListing { dir: "t/debug".into(), contents: WasmDir::Entries(vec!["x.wat".into()]) },
    ];
    assert!(matches!(find_wasm(&none), Err(AgentDevexError::WasmNotFound)));
    let broken = vec![
        WasmListing { dir: "t/release".into(), contents: WasmDir::Entries(vec!["a.wasm".into()]) },
        WasmListing { dir: "t/debug".into(), contents: WasmDir::Unreadable { source: "EIO".into() } },
    ];
    assert_eq!(find_wasm(&broken).unwrap_err().message(), "I/O error at t/debug: EIO");
}

fn status_probe() -> StatusProbe {
    StatusProbe {
        manifest_exists: true,
        config: Ok(None),
        state: Ok(None),
        env_contract_id: None,
        env_rpc_url: None,
    }
}

#[test]
fn status_uses_defaults() {
    let lines = cmd_status("p", false, status_probe()).unwrap();
    assert_eq!(
        texts(&lines),
        vec![
            (Level::Success, "Project p".to_string()),
            (Level::Hint, "  network:     testnet".to_string()),
            (Level::Hint, "  mcp lang:    unknown".to_string()),
            (Level::Hint, "  rpc:         https://soroban-testnet.stellar.org".to_string()),
            (
                Level::Warn,
                "  contract id: (not set) export AGENTPAY_CONTRACT_ID after deploy".to_string()
            ),
        ]
    );
}

#[test]
fn status_prefers_state_env_and_config() {
    let mut probe = status_probe();
    probe.config = Ok(Some(AgentDevexConfig {
        network: Some("mainnet".into()),
        default_lang: Some("py".into()),
        ..AgentDevexConfig::default()
    }));
    probe.state = Ok(Some(ProjectState {
        network: Some("testnet".into()),
        contract_id: Some("CSTATE".into()),
        ..ProjectState::default()
    }));
    probe.env_contract_id = Some("CENV".into());
    probe.env_rpc_url = Some("http://localhost:8000".into());
    let lines = cmd_status("p", true, probe).unwrap();
    assert_eq!(lines[1].text, "  network:     testnet");
    assert_eq!(lines[2].text, "  mcp lang:    py");
    assert_eq!(lines[3].text, "  rpc:         http://localhost:8000");
    assert_eq!(lines[4].text, "  contract id: CENV");
}

#[test]
fn status_failures() {
    let mut probe = status_probe();
    probe.manifest_exists = false;
    assert!(matches!(cmd_status("p", false, probe), Err(AgentDevexError::ConfigNotFound { .. })));
    assert!(matches!(
        cmd_status("p", true, status_probe()),
        Err(AgentDevexError::ValidationFailed(_))
    ));
}

#[test]
fn init_with_a_missing_template_keeps_earlier_files() {
    let assets: Vec<String> = ["project/README.md", "shared/.env.example", "node-mcp/x"]
        .iter()
        .map(|s| s.to_string())
        .collect();
    let plan = cmd_init("demo", Lang::Ts, &DirProbe::Missing, &assets).unwrap();
    let targets: Vec<String> = plan.files.iter().map(|f| f.target.clone()).collect();
    assert_eq!(targets, vec!["demo/README.md".to_string(), "demo/.env.example".to_string()]);
    assert_eq!(
        plan.missing.map(|e| e.message()),
        Some("embedded template not found: soroban".to_string())
    );
}

#[test]
fn deploy_refuses_unknown_network_before_building() {
    for network in ["devnet", "", "Testnet"] {
        match cmd_deploy("p", network, DeployEvent::Start { manifest_exists: true }) {
            DeployAction::Fail(e) => assert_eq!(
                e.message(),
                format!("invalid config value for network: {network}")
            ),
            other => panic!("unexpected {other:?}"),
        }
    }
    assert_eq!(requested_network(None, Some("devnet")), "devnet");
    assert_eq!(requested_network(Some("mainnet"), Some("devnet")), "mainnet");
    assert_eq!(requested_network(None, None), "testnet");
}

#[test]
fn deploy_records_state_after_success() {
    let ok = ToolOutcome::Exited { success: true, status: "exit status: 0".into() };
    let event = DeployEvent::Deployed {
        wasm: "p/w.wasm".into(),
        outcome: ok,
        stdout: "Deploying...\nCDLZFC3SYJYDZT7K67VZ75HPJVIEUVNIXF47ZG2FB2RMQQVU2HHGCYSC\n".into(),
        now_unix: Some(1_700_000_000),
    };
    match cmd_deploy("p", "mainnet", event) {
        DeployAction::SaveState { path, state } => {
            assert_eq!(path, "p/.agent-devex/state.toml");
            assert_eq!(state.network.as_deref(), Some("mainnet"));
            assert_eq!(
                state.contract_id.as_deref(),
                Some("CDLZFC3SYJYDZT7K67VZ75HPJVIEUVNIXF47ZG2FB2RMQQVU2HHGCYSC")
            );
            assert_eq!(state.wasm_path.as_deref(), Some("p/w.wasm"));
            assert_eq!(state.last_deployed_unix, Some(1_700_000_000));
        }
        other => panic!("unexpected {other:?}"),
    }
    match cmd_deploy("p", "mainnet", DeployEvent::StateSaved { result: Ok(()) }) {
        DeployAction::Finish(m) => assert_eq!(
            texts(&m),
            vec![(
                Level::Success,
                "Deploy to mainnet finished. Set AGENTPAY_CONTRACT_ID from the CLI output, then start the MCP server."
                    .to_string()
            )]
        ),
        other => panic!("unexpected {other:?}"),
    }
    let failed = AgentDevexError::IoError { path: "p/.agent-devex".into(), source: "denied".into() };
    match cmd_deploy("p", "mainnet", DeployEvent::StateSaved { result: Err(failed) }) {
        DeployAction::Fail(e) => assert_eq!(e.message(), "I/O error at p/.agent-devex: denied"),
        other => panic!("unexpected {other:?}"),
    }
}

#[test]
fn contract_id_is_the_last_output_line() {
    assert_eq!(contract_id_from_output("a\n  CABC \r\n\n").as_deref(), Some("CABC"));
    assert_eq!(contract_id_from_output("CXYZ").as_deref(), Some("CXYZ"));
    assert_eq!(contract_id_from_output(" \n\t"), None);
}

#[test]
fn tool_run_gives_back_its_exit_status() {
    let ok = ToolOutcome::Exited { success: true, status: "exit status: 0".into() };
    assert_eq!(check_tool_run("cargo", "cargo build", &ok).unwrap(), "exit status: 0");
    assert!(run_stellar("stellar contract build", &ok).is_ok());
    let failed = ToolOutcome::Exited { success: false, status: "exit status: 2".into() };
    assert_eq!(
        check_tool_run("cargo", "cargo build", &failed).unwrap_err().message(),
        "cargo build exited with exit status: 2"
    );
    let spawn = ToolOutcome::SpawnFailed { source: "No such file".into() };
    assert_eq!(
        check_tool_run("cargo", "cargo build", &spawn).unwrap_err().message(),
        "cargo build failed to start — is `cargo` installed and on PATH?"
    );
}

#[test]
fn scaffolded_python_project_validates() {
    let assets: Vec<String> = [
        "project/README.md",
        "project/agent-devex.toml",
        "shared/.env.example",
        "shared/.gitignore",
        "soroban/Cargo.toml",
        "soroban/src/lib.rs",
        "python-mcp/main.py",
        "agent/py/pyproject.toml",
        "agent/py/src/server.py",
    ]
    .iter()
    .map(|s| s.to_string())
    .collect();
    let plan = cmd_init("py_agent", Lang::Py, &DirProbe::Missing, &assets).unwrap();
    assert!(plan.missing.is_none());
    let written: Vec<String> = plan.files.iter().map(|f| f.target.clone()).collect();
    let has = |p: &str| written.contains(&format!("py_agent/{p}"));
    let probe = ProjectProbe {
        manifest: has("contracts/agent_pay_integration/Cargo.toml"),
        contract_lib: has("contracts/agent_pay_integration/src/lib.rs"),
        package_json: has("agent/package.json"),
        index_ts: has("agent/src/index.ts"),
        pyproject: has("agent/pyproject.toml"),
        server_py: has("agent/src/server.py"),
        readme: has("README.md"),
        env_example: EnvExample::Text(
            "STELLAR_SECRET_KEY=\nAGENTPAY_CONTRACT_ID=\nSTELLAR_ACCOUNT=\n".to_string(),
        ),
        gitignore: has(".gitignore"),
        config_file: has("agent-devex.toml"),
        config: Ok(Some(AgentDevexConfig {
            default_lang: Some("py".to_string()),
            ..AgentDevexConfig::default()
        })),
    };
    assert_eq!(
        cmd_validate("py_agent", probe).unwrap(),
        "Project py_agent looks healthy (Python MCP + AgentPay contract)."
    );
}

use agent_devex::embed::{extract_embedded, render_asset, subst, RenderedFile};
use agent_devex::errors::AgentDevexError;
use agent_devex::scaffold::{template_jobs, write_project};
use agent_devex::Lang;

fn assets(paths: &[&str]) -> Vec<String> {
    paths.iter().map(|p| p.to_string()).collect()
}

fn tree() -> Vec<String> {
    assets(&[
        "project/README.md",
        "project/agent-devex.toml",
        "shared/.env.example",
        "shared/.gitignore",
        "soroban/Cargo.toml",
        "soroban/Makefile",
        "soroban/src/lib.rs",
        "soroban/src/test.rs",
        "node-mcp/package.json",
        "node-mcp/src/index.ts",
        "python-mcp/main.py",
        "python-mcp/requirements.txt",
        "agent/ts/package.json",
        "agent/ts/src/index.ts",
        "agent/py/README.md",
        "agent/py/src/server.py",
    ])
}

#[test]
fn subst_replaces_both_placeholders() {
    let out = subst(
        "name = \"{{PROJECT_NAME}}\"\ndefault_lang = \"{{DEFAULT_LANG}}\" # {{PROJECT_NAME}}",
        "demo_proj",
        Lang::Ts,
    );
    assert_eq!(out, "name = \"demo_proj\"\ndefault_lang = \"ts\" # demo_proj");
    assert_eq!(subst("{{DEFAULT_LANG}}", "x", Lang::Py), "py");
}

#[test]
fn subst_without_placeholders_is_identity() {
    let t = "STELLAR_RPC_URL=https://soroban-testnet.stellar.org\n{ {PROJECT_NAME}}";
    assert_eq!(subst(t, "demo", Lang::Py), t);
}

#[test]
fn subst_matches_left_to_right() {
    assert_eq!(subst("{{{{PROJECT_NAME}}}}", "n", Lang::Ts), "{{n}}");
}

#[test]
fn extract_selects_files_under_prefix() {
    let plan = extract_embedded("shared/", "/tmp/demo", &tree()).unwrap();
    let got: Vec<(String, String)> =
        plan.into_iter().map(|e| (e.asset, e.target)).collect();
    assert_eq!(
        got,
        vec![
            ("shared/.env.example".to_string(), "/tmp/demo/.env.example".to_string()),
            ("shared/.gitignore".to_string(), "/tmp/demo/.gitignore".to_string()),
        ]
    );
}

#[test]
fn extract_of_unknown_prefix_is_template_missing() {
    match extract_embedded("missing//", "out", &tree()) {
        Err(AgentDevexError::TemplateMissing(p)) => assert_eq!(p, "missing"),
        other => panic!("unexpected {other:?}"),
    }
    // A prefix that only matches as a string, not as a directory, selects nothing.
    assert!(extract_embedded("agent/p", "out", &tree()).is_err());
}

#[test]
fn render_substitutes_text_and_keeps_binary() {
    match render_asset(b"hello {{PROJECT_NAME}}", "demo_proj", Lang::Ts) {
        RenderedFile::Text(t) => assert_eq!(t, "hello demo_proj"),
        RenderedFile::Raw => panic!("text taken for binary"),
    }
    assert!(matches!(render_asset(&[0xff, 0xfe, 0x00], "demo", Lang::Ts), RenderedFile::Raw));
}

#[test]
fn init_ts_writes_contract_and_agent() {
    let plan = write_project("demo_agent", Lang::Ts, &tree());
    assert!(plan.missing.is_none());
    let targets: Vec<String> = plan.files.iter().map(|f| f.target.clone()).collect();
    assert!(targets.contains(&"demo_agent/contracts/agent_pay_integration/src/lib.rs".to_string()));
    assert!(targets.contains(&"demo_agent/agent/src/index.ts".to_string()));
    assert!(targets.contains(&"demo_agent/server/src/index.ts".to_string()));
    assert!(targets.contains(&"demo_agent/agent-devex.toml".to_string()));
    assert!(targets.contains(&"demo_agent/.env.example".to_string()));
    assert!(!targets.iter().any(|t| t.ends_with(".py")));
}

#[test]
fn init_outputs_structured_directory_tree() {
    let plan = write_project("test-proj", Lang::Py, &tree());
    assert!(plan.missing.is_none());
    let targets: Vec<String> = plan.files.iter().map(|f| f.target.clone()).collect();
    for path in [
        "contracts/agent_pay_integration/Cargo.toml",
        "contracts/agent_pay_integration/src/lib.rs",
        "contracts/agent_pay_integration/src/test.rs",
        "contracts/agent_pay_integration/Makefile",
        "server/main.py",
        "server/requirements.txt",
        "agent/src/server.py",
        "README.md",
        ".gitignore",
        ".env.example",
    ] {
        assert!(targets.contains(&format!("test-proj/{path}")), "missing {path}");
    }
}

#[test]
fn scaffold_order_and_missing_language_template() {
    let jobs = template_jobs("p", Lang::Ts);
    let got: Vec<(String, String)> = jobs.into_iter().map(|j| (j.prefix, j.dest)).collect();
    assert_eq!(
        got,
        vec![
            ("project".to_string(), "p".to_string()),
            ("shared".to_string(), "p".to_string()),
            ("soroban".to_string(), "p/contracts/agent_pay_integration".to_string()),
            ("node-mcp".to_string(), "p/server".to_string()),
            ("agent/ts".to_string(), "p/agent".to_string()),
        ]
    );
    let without_node = assets(&["project/a", "shared/b", "soroban/c", "agent/ts/d"]);
    let plan = write_project("p", Lang::Ts, &without_node);
    match plan.missing {
        Some(AgentDevexError::TemplateMissing(p)) => assert_eq!(p, "node-mcp"),
        other => panic!("unexpected {other:?}"),
    }
    // The templates before the missing one are still written; later ones are not.
    let targets: Vec<(String, String)> =
        plan.files.iter().map(|f| (f.asset.clone(), f.target.clone())).collect();
    assert_eq!(
        targets,
        vec![
            ("project/a".to_string(), "p/a".to_string()),
            ("shared/b".to_string(), "p/b".to_string()),
            ("soroban/c".to_string(), "p/contracts/agent_pay_integration/c".to_string()),
        ]
    );
}

use agent_devex::commands::compile::cmd_compile;
use agent_devex::commands::run::{cmd_run, resolve_mcp_port};
use agent_devex::config::{
    load_or_default, parse_lang, AgentConfig, AgentDevexConfig, McpConfig, ProjectMeta,
};
use agent_devex::errors::AgentDevexError;
use agent_devex::Lang;

#[test]
fn parse_lang_accepts_names_in_any_case() {
    assert_eq!(parse_lang("ts").unwrap(), Lang::Ts);
    assert_eq!(parse_lang("  TypeScript\n").unwrap(), Lang::Ts);
    assert_eq!(parse_lang("PY").unwrap(), Lang::Py);
    assert_eq!(parse_lang("python").unwrap(), Lang::Py);
}

#[test]
fn parse_lang_reports_normalized_value() {
    match parse_lang("  RuSt ") {
        Err(AgentDevexError::InvalidConfigValue { key, value }) => {
            assert_eq!(key, "default_lang");
            assert_eq!(value, "rust");
        }
        other => panic!("unexpected {other:?}"),
    }
}

#[test]
fn config_name_round_trips() {
    for lang in [Lang::Ts, Lang::Py] {
        assert_eq!(parse_lang(lang.as_config_str()).unwrap(), lang);
    }
}

#[test]
fn parsed_default_lang_follows_the_field() {
    let mut cfg = AgentDevexConfig::default();
    assert!(cfg.parsed_default_lang().is_none());
    cfg.default_lang = Some("py".to_string());
    assert_eq!(cfg.parsed_default_lang().unwrap().unwrap(), Lang::Py);
    cfg.default_lang = Some("go".to_string());
    assert!(cfg.parsed_default_lang().unwrap().is_err());
}

#[test]
fn load_or_default_uses_defaults_when_absent() {
    let cfg = load_or_default(Ok(None)).unwrap();
    assert!(cfg.network.is_none() && cfg.default_lang.is_none());
    let given = AgentDevexConfig {
        network: Some("mainnet".into()),
        default_lang: None,
        project: ProjectMeta::default(),
    };
    assert_eq!(load_or_default(Ok(Some(given))).unwrap().network.as_deref(), Some("mainnet"));
    let err = load_or_default(Err(AgentDevexError::InvalidToml {
        path: "agent-devex.toml".into(),
        source: "bad".into(),
    }));
    assert!(matches!(err, Err(AgentDevexError::InvalidToml { .. })));
}

#[test]
fn mcp_port_precedence() {
    assert_eq!(resolve_mcp_port(Some(8080), Some(4000)).unwrap(), 8080);
    assert_eq!(resolve_mcp_port(None, Some(4000)).unwrap(), 4000);
    assert_eq!(resolve_mcp_port(None, None).unwrap(), 3000);
    assert!(resolve_mcp_port(Some(0), Some(4000)).is_err());
    assert_eq!(cmd_run(None, None).unwrap(), 3000);
    match McpConfig::validate_port(0) {
        Err(e) => assert_eq!(e.message(), "invalid config value for mcp.port: 0"),
        Ok(_) => panic!("port 0 accepted"),
    }
}

#[test]
fn agent_config_defaults() {
    let d = AgentConfig::default();
    assert_eq!(d.network, "testnet");
    assert_eq!(d.mcp.port, 3000);
    assert!(d.mcp.lang.is_none() && d.contract_ids.agent_pay.is_none());
    let n = AgentConfig::for_new_project(Lang::Py);
    assert_eq!(n.mcp.lang.as_deref(), Some("py"));
}

#[test]
fn compile_needs_agent_toml() {
    assert!(cmd_compile(Ok(AgentConfig::default())).is_ok());
    let err = cmd_compile(Err(AgentDevexError::ConfigNotFound { path: "p/agent.toml".into() }));
    assert_eq!(err.unwrap_err().message(), "config not found: p/agent.toml");
}

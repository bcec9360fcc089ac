use agent_devex::errors::AgentDevexError;

#[test]
fn every_error_has_its_message() {
    let cases = vec![
        (AgentDevexError::ConfigNotFound { path: "a".into() }, "config not found: a"),
        (
            AgentDevexError::IoError { path: "a".into(), source: "b".into() },
            "I/O error at a: b",
        ),
        (
            AgentDevexError::DirectoryNotEmpty { path: "taken".into() },
            "directory taken already exists and is not empty",
        ),
        (
            AgentDevexError::ToolSpawn { program: "uv".into(), label: "sync".into(), source: "x".into() },
            "sync failed to start — is `uv` installed and on PATH?",
        ),
        (
            AgentDevexError::ToolFailed { label: "build".into(), status: "exit status: 2".into() },
            "build exited with exit status: 2",
        ),
        (
            AgentDevexError::ToolMissing { program: "stellar".into() },
            "required tool `stellar` was not found on PATH",
        ),
        (
            AgentDevexError::InvalidProjectName { name: "x".into(), reason: "r".into() },
            "invalid project name `x`: r",
        ),
        (
            AgentDevexError::WasmNotFound,
            "no .wasm after build — check stellar contract build output",
        ),
        (
            AgentDevexError::InvalidToml { path: "a.toml".into(), source: "bad".into() },
            "invalid TOML config a.toml: bad",
        ),
        (
            AgentDevexError::InvalidConfigValue { key: "k".into(), value: "v".into() },
            "invalid config value for k: v",
        ),
        (AgentDevexError::ValidationFailed("m".into()), "validation failed: m"),
        (AgentDevexError::TemplateMissing("shared".into()), "embedded template not found: shared"),
    ];
    for (err, text) in cases {
        assert_eq!(err.message(), text);
    }
}

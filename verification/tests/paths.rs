use agent_devex::paths::{
    agent_dir, contract_crate_dir, contract_manifest, join_path, server_dir, wasm_target_root,
};
use agent_devex::state::state_path;

#[test]
fn canonical_project_paths() {
    assert_eq!(contract_crate_dir("proj"), "proj/contracts/agent_pay_integration");
    assert_eq!(
        contract_manifest("proj"),
        "proj/contracts/agent_pay_integration/Cargo.toml"
    );
    assert_eq!(agent_dir("proj"), "proj/agent");
    assert_eq!(server_dir("proj/"), "proj/server");
    assert_eq!(
        wasm_target_root("c"),
        "c/target/wasm32-unknown-unknown"
    );
    assert_eq!(state_path("."), "./.agent-devex/state.toml");
}

#[test]
fn join_follows_path_rules() {
    assert_eq!(join_path("", "a"), "a");
    assert_eq!(join_path("a/", "b"), "a/b");
    assert_eq!(join_path("a", "/abs"), "/abs");
    assert_eq!(join_path("a", ""), "a/");
}

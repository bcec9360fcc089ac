use agent_devex::errors::AgentDevexError;
use agent_devex::names::validate_project_name;

#[test]
fn accepts_simple_names() {
    validate_project_name("my-agent").unwrap();
    validate_project_name("demo_01").unwrap();
}

#[test]
fn rejects_paths_and_empty() {
    assert!(validate_project_name("").is_err());
    assert!(validate_project_name("../secret").is_err());
    assert!(validate_project_name("has space").is_err());
    assert!(validate_project_name("9lives").is_err());
    assert!(validate_project_name("-lead").is_err());
}

fn reason_for(name: &str) -> String {
    match validate_project_name(name) {
        Err(AgentDevexError::InvalidProjectName { name: n, reason }) => {
            assert_eq!(n, name);
            reason
        }
        other => panic!("expected a refusal of {name:?}, got {other:?}"),
    }
}

#[test]
fn each_refusal_names_its_reason() {
    assert_eq!(reason_for(""), "name must not be empty");
    assert_eq!(reason_for("."), "use a dedicated directory name, not `.` or `..`");
    assert_eq!(reason_for(".."), "use a dedicated directory name, not `.` or `..`");
    assert_eq!(
        reason_for("../secret"),
        "name contains characters that are not valid in a directory"
    );
    assert_eq!(
        reason_for("a:b"),
        "name contains characters that are not valid in a directory"
    );
    assert_eq!(reason_for("9lives"), "name should start with a letter or underscore");
    assert_eq!(reason_for("-lead"), "name should start with a letter or underscore");
    assert_eq!(
        reason_for("has space"),
        "use only letters, digits, hyphens, and underscores"
    );
    assert_eq!(reason_for("a.b"), "use only letters, digits, hyphens, and underscores");
}

#[test]
fn accepts_underscore_start_and_mixed_case() {
    validate_project_name("_x").unwrap();
    validate_project_name("Agent-2").unwrap();
}

#[test]
fn refusal_message_quotes_the_name() {
    let err = validate_project_name("9lives").unwrap_err();
    assert_eq!(
        err.message(),
        "invalid project name `9lives`: name should start with a letter or underscore"
    );
}

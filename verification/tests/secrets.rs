use agent_devex::secrets::{is_secret_env, redact};

#[test]
fn redacts_stellar_secret_shape() {
    let key = format!("S{}", "X".repeat(55));
    let out = redact(&key);
    assert!(!out.contains(&key));
    assert!(out.contains("redacted"));
}

#[test]
fn redacted_key_keeps_four_characters() {
    let key = format!("SABC{}", "1".repeat(40));
    assert_eq!(redact(&key), "SABC… (redacted)");
    assert_eq!(redact(&format!("  {key}\n")), "SABC… (redacted)");
}

#[test]
fn short_or_mixed_values_are_not_key_shaped() {
    let short = format!("S{}", "X".repeat(30));
    assert_eq!(redact(&short), short);
    let with_dash = format!("S{}-", "X".repeat(40));
    assert_eq!(redact(&with_dash), with_dash);
}

#[test]
fn named_secrets_are_hidden_entirely() {
    assert_eq!(redact("MY_SECRET=abc"), "(redacted)");
    assert_eq!(redact("PRIVATE key"), "(redacted)");
    assert_eq!(redact("  plain value  "), "plain value");
}

#[test]
fn redaction_is_idempotent() {
    for v in [
        format!("S{}", "Q".repeat(40)),
        "MY_SECRET".to_string(),
        " hello ".to_string(),
    ] {
        let once = redact(&v);
        assert_eq!(redact(&once), once);
    }
}

#[test]
fn secret_env_names() {
    assert!(is_secret_env("STELLAR_SECRET_KEY"));
    assert!(is_secret_env("stellar_secret"));
    assert!(is_secret_env("my_private_thing"));
    assert!(is_secret_env("api_key"));
    assert!(!is_secret_env("AGENTPAY_CONTRACT_ID"));
    assert!(!is_secret_env("KEYRING"));
}

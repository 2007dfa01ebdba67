use runx_runtime::env::EnvVars;
use runx_runtime::json::JsonValue;
use runx_runtime::outbox::{
    ThreadOutboxProviderSupervisorError, ThreadOutboxProviderSupervisorOptions,
    provider_process_env_from, reject_secret_like_fields, secret_like_key,
    thread_outbox_provider_forbidden_secret_fields,
};

fn host_env(pairs: &[(&str, &str)]) -> EnvVars {
    let mut env = EnvVars::new();
    for (key, value) in pairs {
        env.insert((*key).to_owned(), (*value).to_owned());
    }
    env
}

#[test]
fn provider_process_env_preserves_host_paths_without_leaking_ambient_secrets() {
    let host = host_env(&[
        ("PATH", "/opt/runx/bin:/usr/bin"),
        ("HOME", "/private/operator-home"),
        ("TMPDIR", "/private/operator-tmp"),
        ("AWS_SECRET_ACCESS_KEY", "must-not-cross-boundary"),
    ]);
    let env = provider_process_env_from(&EnvVars::new(), &host);

    assert_eq!(
        env.get("PATH").map(String::as_str),
        Some("/opt/runx/bin:/usr/bin")
    );
    assert_eq!(
        env.get("HOME").map(String::as_str),
        Some("/private/operator-home")
    );
    assert_eq!(
        env.get("TMPDIR").map(String::as_str),
        Some("/private/operator-tmp")
    );
    assert!(!env.contains_key("AWS_SECRET_ACCESS_KEY"));
}

#[test]
fn delivered_credentials_override_host_values() {
    let host = host_env(&[("HOME", "/home/op"), ("GITHUB_TOKEN", "ambient")]);
    let secrets = host_env(&[("GITHUB_TOKEN", "delivered"), ("HOME", "/sandbox")]);
    let env = provider_process_env_from(&secrets, &host);
    assert_eq!(env.get("GITHUB_TOKEN").map(String::as_str), Some("delivered"));
    assert_eq!(env.get("HOME").map(String::as_str), Some("/sandbox"));
}

#[test]
fn secret_like_keys_are_recognized_in_any_spelling() {
    assert!(secret_like_key("access_token"));
    assert!(secret_like_key("API-Key"));
    assert!(secret_like_key("pass.word"));
    assert!(secret_like_key("Authorization"));
    assert!(!secret_like_key("token_count"));
    assert!(!secret_like_key("locator"));
    assert_eq!(
        thread_outbox_provider_forbidden_secret_fields(),
        vec!["access_token", "api_key", "authorization", "password", "secret", "token"]
    );
}

#[test]
fn secret_fields_are_rejected_with_their_path() {
    let value = JsonValue::Object(vec![
        ("status".to_owned(), JsonValue::String("accepted".to_owned())),
        (
            "items".to_owned(),
            JsonValue::Array(vec![
                JsonValue::Null,
                JsonValue::Object(vec![("api_key".to_owned(), JsonValue::Bool(true))]),
            ]),
        ),
    ]);
    assert_eq!(
        reject_secret_like_fields(&value, "$"),
        Err(ThreadOutboxProviderSupervisorError::SecretFieldRejected {
            field: "$.items[1].api_key".to_owned()
        })
    );
    let clean = JsonValue::Object(vec![("status".to_owned(), JsonValue::Null)]);
    assert_eq!(reject_secret_like_fields(&clean, "$"), Ok(()));
}

#[test]
fn supervisor_options_default_to_five_seconds_and_one_mebibyte() {
    let options = ThreadOutboxProviderSupervisorOptions::default();
    assert_eq!(options.timeout_ms, 5_000);
    assert_eq!(options.output_limit_bytes, 1_048_576);
    assert_eq!(options.cwd, None);
}

use runx_runtime::redaction::redact_sensitive_text;

#[test]
fn redacts_sentinel_and_bearer_values() {
    let redacted = redact_sensitive_text(
        "failed SECRET_PROVIDER_ACCESS_TOKEN_DO_NOT_LEAK Bearer abc.def SECRET_AUTHORIZE_QUERY_DO_NOT_LEAK https://auth.example/authorize?code=abc",
    );

    assert!(!redacted.contains("SECRET_PROVIDER_ACCESS_TOKEN_DO_NOT_LEAK"));
    assert!(!redacted.contains("abc.def"));
    assert!(!redacted.contains("SECRET_AUTHORIZE_QUERY_DO_NOT_LEAK"));
    assert!(!redacted.contains("auth.example"));
    assert_eq!(
        redacted,
        "failed [redacted] Bearer [redacted] [redacted] [redacted-url]"
    );
}

#[test]
fn redaction_leaves_plain_text_unchanged() {
    assert_eq!(redact_sensitive_text("nothing to hide here"), "nothing to hide here");
    assert_eq!(redact_sensitive_text(""), "");
}

#[test]
fn redaction_stops_secret_tokens_at_punctuation() {
    assert_eq!(redact_sensitive_text("key=SECRET_A-b_1.tail"), "key=[redacted].tail");
}

#[test]
fn redaction_picks_the_earliest_url_scheme() {
    assert_eq!(
        redact_sensitive_text("see http://a.example) and (https://b.example]"),
        "see [redacted-url]) and ([redacted-url]]"
    );
}

#[test]
fn bearer_token_ends_at_whitespace() {
    assert_eq!(redact_sensitive_text("Bearer x\ty"), "Bearer [redacted]\ty");
    assert_eq!(redact_sensitive_text("Bearer "), "Bearer [redacted]");
}

#[test]
fn no_secret_token_or_url_survives_redaction() {
    for input in [
        "SECRET_SECRET_a-b SECRET_ SECRE T_ xSECRET_y",
        "Authorization: Bearer SECRET_tok http://h/SECRET_p https://x\"SECRET_q",
        "httphttps://a http://b)SECRET_c]https://",
    ] {
        let output = redact_sensitive_text(input);
        assert!(!output.contains("SECRET_"), "{output}");
        assert!(!output.contains("http://"), "{output}");
        assert!(!output.contains("https://"), "{output}");
    }
    assert_eq!(
        redact_sensitive_text("key SECRET_A1-b_2!rest"),
        "key [redacted]!rest"
    );
}

#[test]
fn redacting_twice_changes_nothing() {
    let once = redact_sensitive_text("auth Bearer abc.def then https://x.y/z and SECRET_KEY-1 done");
    assert_eq!(redact_sensitive_text(&once), once);
    let bare = redact_sensitive_text("Bearer ");
    assert_eq!(bare, "Bearer [redacted]");
    assert_eq!(redact_sensitive_text(&bare), bare);
}

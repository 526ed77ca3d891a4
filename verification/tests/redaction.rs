use opengrok_core::redaction::{safe_error_excerpt, MAX_EXCERPT_CHARS, REDACTION_PLACEHOLDER};

/// What the string functions of the standard library make of the same input.
fn expected(body: &str, api_key: &str) -> String {
    let sanitized = body
        .replace(api_key, "[REDACTED]")
        .replace(['\r', '\n'], " ");
    sanitized.chars().take(512).collect()
}

#[test]
fn error_excerpt_redacts_a_reflected_credential() {
    let excerpt = safe_error_excerpt("request rejected for meta-canary\ntry again", "meta-canary");
    assert_eq!(excerpt, "request rejected for [REDACTED] try again");
}

#[test]
fn excerpt_agrees_with_the_standard_library() {
    for (body, key) in [
        ("", "key"),
        ("key", "key"),
        ("keykey", "key"),
        ("kkeyy", "key"),
        ("aaaaa", "aa"),
        ("abababa", "aba"),
        ("no credential here", "key"),
        ("a\r\nb\n\nc\r", "key"),
        ("a\nb", "a b"),
        ("sch\u{f6}n \u{1f600} key", "\u{1f600}"),
        ("abc", ""),
        ("", ""),
        ("ke", "key"),
        ("[REDACTED]", "RED"),
    ] {
        assert_eq!(safe_error_excerpt(body, key), expected(body, key));
    }
}

#[test]
fn empty_credential_is_found_at_every_boundary() {
    assert_eq!(
        safe_error_excerpt("ab", ""),
        "[REDACTED]a[REDACTED]b[REDACTED]"
    );
}

#[test]
fn excerpt_is_clipped_by_characters() {
    assert_eq!(MAX_EXCERPT_CHARS, 512);
    let long = "\u{e9}".repeat(600);
    let excerpt = safe_error_excerpt(&long, "key");
    assert_eq!(excerpt.chars().count(), 512);
    assert_eq!(excerpt, "\u{e9}".repeat(512));
    let exact = "x".repeat(512);
    assert_eq!(safe_error_excerpt(&exact, "key"), exact);
    let across = format!("{}secret", "x".repeat(509));
    assert_eq!(
        safe_error_excerpt(&across, "secret"),
        format!("{}[RE", "x".repeat(509))
    );
}

#[test]
fn excerpt_has_no_line_breaks() {
    assert_eq!(safe_error_excerpt("a\r\nb\nc", "key"), "a  b c");
}

#[test]
fn text_without_the_credential_is_kept() {
    assert_eq!(safe_error_excerpt("plain text", "key"), "plain text");
}

#[test]
fn excerpt_hides_a_credential_however_often_it_stands_there() {
    let key = "sk-Q7z";
    let excerpt = safe_error_excerpt("sk-Q7zsk-Q7z, ssk-Q7zk-Q7z", key);
    assert_eq!(REDACTION_PLACEHOLDER, "[REDACTED]");
    assert_eq!(excerpt, "[REDACTED][REDACTED], s[REDACTED]k-Q7z");
    assert!(!excerpt.contains(key));
}

#[test]
fn a_copy_in_the_excerpt_leans_on_the_placeholder() {
    assert_eq!(safe_error_excerpt("D]aa", "D]a"), "[REDACTED]a");
}

use std::sync::atomic::{AtomicBool, Ordering};
use std::sync::Arc;

use reprise::common::{is_interrupted, matches_user, resolve_app_slug};
use reprise::config::Config;
use reprise::error::RepriseError;

#[test]
fn test_matches_user_bitrise_username_exact() {
    assert!(matches_user("manual-testuser", "testuser", None));
}

#[test]
fn test_matches_user_bitrise_username_partial() {
    assert!(matches_user("manual-TestUser-trigger", "testuser", None));
}

#[test]
fn test_matches_user_bitrise_username_case_insensitive() {
    assert!(matches_user("manual-TESTUSER", "testuser", None));
    assert!(matches_user("manual-testuser", "TESTUSER", None));
}

#[test]
fn test_matches_user_webhook_github_exact() {
    assert!(matches_user(
        "webhook-github/dan-hart",
        "bitrise-user",
        Some("dan-hart")
    ));
}

#[test]
fn test_matches_user_webhook_github_case_insensitive() {
    assert!(matches_user(
        "webhook-github/Dan-Hart",
        "bitrise-user",
        Some("dan-hart")
    ));
    assert!(matches_user(
        "webhook-github/dan-hart",
        "bitrise-user",
        Some("Dan-Hart")
    ));
}

#[test]
fn test_matches_user_webhook_github_no_match() {
    assert!(!matches_user(
        "webhook-github/other-user",
        "bitrise-user",
        Some("dan-hart")
    ));
}

#[test]
fn test_matches_user_no_github_username() {
    // Should fall back to the service username matching
    assert!(!matches_user("webhook-github/dan-hart", "bitrise-user", None));
}

#[test]
fn test_matches_user_neither_match() {
    assert!(!matches_user(
        "webhook-github/other-user",
        "bitrise-user",
        Some("dan-hart")
    ));
    assert!(!matches_user(
        "manual-other-user",
        "bitrise-user",
        Some("dan-hart")
    ));
}

#[test]
fn test_matches_user_empty_triggered_by() {
    assert!(!matches_user("", "bitrise-user", Some("dan-hart")));
}

#[test]
fn test_matches_user_bitrise_match_takes_precedence() {
    // If the service username matches, GitHub is not needed
    assert!(matches_user("manual-bitrise-user", "bitrise-user", None));
}

#[test]
fn test_is_interrupted_helper() {
    let interrupted = Arc::new(AtomicBool::new(false));
    assert!(!is_interrupted(&interrupted));

    interrupted.store(true, Ordering::SeqCst);
    assert!(is_interrupted(&interrupted));
}

#[test]
fn test_resolve_app_slug_prefers_argument() {
    let mut config = Config::default();
    config.set_default_app("default-app".to_string(), None);
    assert_eq!(resolve_app_slug(Some("arg-app"), &config).unwrap(), "arg-app");
    assert_eq!(resolve_app_slug(None, &config).unwrap(), "default-app");
}

#[test]
fn test_resolve_app_slug_errors_without_default() {
    let config = Config::default();
    let result = resolve_app_slug(None, &config);
    assert!(matches!(result, Err(RepriseError::NoDefaultApp)));
}

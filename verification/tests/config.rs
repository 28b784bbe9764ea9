use reprise::config::{config_set_value, mask_token, Config, OutputConfig};
use reprise::error::RepriseError;

#[test]
fn test_config_default() {
    let config = Config::default();
    assert!(config.api.token.is_none());
    assert!(config.defaults.app_slug.is_none());
    assert!(config.defaults.app_name.is_none());
    assert_eq!(config.output.format, "pretty");
}

#[test]
fn test_output_config_default() {
    let output = OutputConfig::default();
    assert_eq!(output.format, "pretty");
}

#[test]
fn test_require_token_when_present() {
    let mut config = Config::default();
    config.api.token = Some("my-token".to_string());

    let token = config.require_token().unwrap();
    assert_eq!(token, "my-token");
}

#[test]
fn test_require_token_when_missing() {
    let config = Config::default();
    let result = config.require_token();

    assert!(result.is_err());
    match result.unwrap_err() {
        RepriseError::ConfigMissing(m) => assert!(m.contains("API token not configured")),
        _ => panic!("expected a missing-configuration error"),
    }
}

#[test]
fn test_require_default_app_when_present() {
    let mut config = Config::default();
    config.defaults.app_slug = Some("app-123".to_string());

    let slug = config.require_default_app().unwrap();
    assert_eq!(slug, "app-123");
}

#[test]
fn test_require_default_app_when_missing() {
    let config = Config::default();
    let result = config.require_default_app();

    assert!(matches!(result, Err(RepriseError::NoDefaultApp)));
}

#[test]
fn test_set_default_app_with_name() {
    let mut config = Config::default();
    config.set_default_app("app-slug".to_string(), Some("App Name".to_string()));

    assert_eq!(config.defaults.app_slug, Some("app-slug".to_string()));
    assert_eq!(config.defaults.app_name, Some("App Name".to_string()));
}

#[test]
fn test_set_default_app_without_name() {
    let mut config = Config::default();
    config.set_default_app("app-slug".to_string(), None);

    assert_eq!(config.defaults.app_slug, Some("app-slug".to_string()));
    assert!(config.defaults.app_name.is_none());
}

#[test]
fn test_set_token() {
    let mut config = Config::default();
    config.set_token("new-token".to_string());

    assert_eq!(config.api.token, Some("new-token".to_string()));
}

#[test]
fn test_set_token_overwrites() {
    let mut config = Config::default();
    config.api.token = Some("old-token".to_string());
    config.set_token("new-token".to_string());

    assert_eq!(config.api.token, Some("new-token".to_string()));
}

#[test]
fn test_mask_token_long() {
    assert_eq!(mask_token("abcdefghijkl", 4), "abcd...ijkl");
}

#[test]
fn test_mask_token_short() {
    assert_eq!(mask_token("abcdefgh", 4), "****");
    assert_eq!(mask_token("", 4), "****");
}

#[test]
fn test_config_set_value_token() {
    let mut config = Config::default();
    assert!(config_set_value(&mut config, "api.token", "tok").is_ok());
    assert_eq!(config.api.token, Some("tok".to_string()));
}

#[test]
fn test_config_set_value_format() {
    let mut config = Config::default();
    assert!(config_set_value(&mut config, "output.format", "json").is_ok());
    assert_eq!(config.output.format, "json");

    let result = config_set_value(&mut config, "output.format", "yaml");
    assert!(result.is_err());
    assert_eq!(config.output.format, "json");
}

#[test]
fn test_config_set_value_unknown_key() {
    let mut config = Config::default();
    let result = config_set_value(&mut config, "no.such.key", "x");
    match result.unwrap_err() {
        RepriseError::InvalidArgument(m) => assert!(m.contains("Unknown config key")),
        _ => panic!("expected an invalid-argument error"),
    }
}

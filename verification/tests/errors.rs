use reprise::error::RepriseError;

#[test]
fn test_api_helper_creates_error() {
    let err = RepriseError::api(404, "Not found".to_string());
    match err {
        RepriseError::Api { status, message } => {
            assert_eq!(status, 404);
            assert_eq!(message, "Not found");
        }
        _ => panic!("Expected Api error"),
    }
}

#[test]
fn test_api_helper_with_string() {
    let err = RepriseError::api(500, String::from("Server error"));
    match err {
        RepriseError::Api { status, message } => {
            assert_eq!(status, 500);
            assert_eq!(message, "Server error");
        }
        _ => panic!("Expected Api error"),
    }
}

#[test]
fn test_config_missing_helper() {
    let err = RepriseError::config_missing("API token not set".to_string());
    match err {
        RepriseError::ConfigMissing(msg) => {
            assert_eq!(msg, "API token not set");
        }
        _ => panic!("Expected ConfigMissing error"),
    }
}

#[test]
fn test_exit_code_config() {
    let err = RepriseError::Config("invalid config".to_string());
    assert_eq!(err.exit_code(), 78);
}

#[test]
fn test_exit_code_config_missing() {
    let err = RepriseError::ConfigMissing("missing token".to_string());
    assert_eq!(err.exit_code(), 78);
}

#[test]
fn test_exit_code_no_default_app() {
    let err = RepriseError::NoDefaultApp;
    assert_eq!(err.exit_code(), 78);
}

#[test]
fn test_exit_code_invalid_argument() {
    let err = RepriseError::InvalidArgument("bad arg".to_string());
    assert_eq!(err.exit_code(), 2);
}

#[test]
fn test_exit_code_app_not_found() {
    let err = RepriseError::AppNotFound("my-app".to_string());
    assert_eq!(err.exit_code(), 66);
}

#[test]
fn test_exit_code_build_not_found() {
    let err = RepriseError::BuildNotFound("build-123".to_string());
    assert_eq!(err.exit_code(), 66);
}

#[test]
fn test_exit_code_log_not_available() {
    let err = RepriseError::LogNotAvailable("build in progress".to_string());
    assert_eq!(err.exit_code(), 66);
}

#[test]
fn test_exit_code_api_401_unauthorized() {
    let err = RepriseError::api(401, "Unauthorized".to_string());
    assert_eq!(err.exit_code(), 77); // EX_NOPERM
}

#[test]
fn test_exit_code_api_403_forbidden() {
    let err = RepriseError::api(403, "Forbidden".to_string());
    assert_eq!(err.exit_code(), 77); // EX_NOPERM
}

#[test]
fn test_exit_code_api_404_not_found() {
    let err = RepriseError::api(404, "Not Found".to_string());
    assert_eq!(err.exit_code(), 66); // EX_NOINPUT
}

#[test]
fn test_exit_code_api_500_server_error() {
    let err = RepriseError::api(500, "Internal Server Error".to_string());
    assert_eq!(err.exit_code(), 69); // EX_UNAVAILABLE
}

#[test]
fn test_exit_code_api_502_bad_gateway() {
    let err = RepriseError::api(502, "Bad Gateway".to_string());
    assert_eq!(err.exit_code(), 69); // EX_UNAVAILABLE
}

#[test]
fn test_exit_code_api_503_service_unavailable() {
    let err = RepriseError::api(503, "Service Unavailable".to_string());
    assert_eq!(err.exit_code(), 69); // EX_UNAVAILABLE
}

#[test]
fn test_exit_code_io_error() {
    let err = RepriseError::Io("file not found".to_string());
    assert_eq!(err.exit_code(), 74); // EX_IOERR
}

#[test]
fn test_exit_code_env_error() {
    let err = RepriseError::Env("environment variable not found".to_string());
    assert_eq!(err.exit_code(), 74); // EX_IOERR
}

#[test]
fn test_exit_code_json_error() {
    let err = RepriseError::Json("expected value".to_string());
    assert_eq!(err.exit_code(), 65); // EX_DATAERR
}

#[test]
fn test_exit_code_toml_error() {
    let err = RepriseError::Toml("unexpected end of input".to_string());
    assert_eq!(err.exit_code(), 65); // EX_DATAERR
}

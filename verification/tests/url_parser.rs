use reprise::error::RepriseError;
use reprise::url_parser::{parse_bitrise_url, BitriseUrl};

fn error_text(e: &RepriseError) -> String {
    match e {
        RepriseError::InvalidArgument(m) => m.clone(),
        _ => panic!("expected an invalid-argument error"),
    }
}

#[test]
fn test_parse_app_url() {
    let url = parse_bitrise_url("https://app.bitrise.io/app/abc123").unwrap();
    assert!(matches!(&url, BitriseUrl::App { slug } if slug == "abc123"));
    assert_eq!(url.app_slug(), Some("abc123"));
    assert_eq!(url.build_slug(), None);
    assert_eq!(url.description(), "app");
}

#[test]
fn test_parse_build_url() {
    let url = parse_bitrise_url("https://app.bitrise.io/build/xyz789").unwrap();
    assert!(matches!(&url, BitriseUrl::Build { slug } if slug == "xyz789"));
    assert_eq!(url.app_slug(), None);
    assert_eq!(url.build_slug(), Some("xyz789"));
    assert_eq!(url.description(), "build");
}

#[test]
fn test_parse_pipeline_url() {
    let url = parse_bitrise_url("https://app.bitrise.io/app/abc123/pipelines/def456").unwrap();
    assert!(matches!(
        &url,
        BitriseUrl::Pipeline { app_slug, pipeline_id }
            if app_slug == "abc123" && pipeline_id == "def456"
    ));
    assert_eq!(url.app_slug(), Some("abc123"));
    assert_eq!(url.pipeline_id(), Some("def456"));
    assert_eq!(url.description(), "pipeline");
}

#[test]
fn test_parse_uuid_style_urls() {
    // UUID-style slugs, as the service commonly issues them
    let url = parse_bitrise_url(
        "https://app.bitrise.io/app/36f58731-9f78-4142-9479-866acc94e15a/pipelines/d7790456-f02a-4267-bcd5-09f394e2cd29"
    ).unwrap();
    assert!(matches!(
        &url,
        BitriseUrl::Pipeline { app_slug, pipeline_id }
            if app_slug == "36f58731-9f78-4142-9479-866acc94e15a"
                && pipeline_id == "d7790456-f02a-4267-bcd5-09f394e2cd29"
    ));
}

#[test]
fn test_invalid_host() {
    let result = parse_bitrise_url("https://example.com/app/abc123");
    assert!(result.is_err());
    assert!(error_text(&result.unwrap_err()).contains("Not a Bitrise URL"));
}

#[test]
fn test_invalid_url() {
    let result = parse_bitrise_url("not-a-url");
    assert!(result.is_err());
}

#[test]
fn test_invalid_path() {
    let result = parse_bitrise_url("https://app.bitrise.io/unknown/path");
    assert!(result.is_err());
    assert!(error_text(&result.unwrap_err()).contains("Unrecognized"));
}

#[test]
fn test_empty_slug() {
    let result = parse_bitrise_url("https://app.bitrise.io/app/");
    assert!(result.is_err());
}

#[test]
fn test_to_url() {
    let app = BitriseUrl::App { slug: "abc".to_string() };
    assert_eq!(app.to_url(), "https://app.bitrise.io/app/abc");

    let build = BitriseUrl::Build { slug: "xyz".to_string() };
    assert_eq!(build.to_url(), "https://app.bitrise.io/build/xyz");

    let pipeline = BitriseUrl::Pipeline {
        app_slug: "abc".to_string(),
        pipeline_id: "123".to_string(),
    };
    assert_eq!(pipeline.to_url(), "https://app.bitrise.io/app/abc/pipelines/123");
}

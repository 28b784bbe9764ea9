use reprise::args::UrlArgs;
use reprise::url_parser::{
    is_generation_mode, url_generate, validate_flags_for_url_type, BitriseUrl,
};

fn plain_args() -> UrlArgs {
    UrlArgs {
        url: None,
        gen_build: None,
        gen_app: None,
        gen_pipeline: None,
        app_slug_for_pipeline: None,
        browser: false,
        watch: false,
        interval: 5,
        notify: false,
        set_default: false,
        logs: false,
        follow: false,
        artifacts: false,
        abort: false,
        abort_reason: None,
        yes: false,
        retry: false,
        retry_wait: false,
        download_dir: None,
    }
}

#[test]
fn test_is_generation_mode() {
    assert!(!is_generation_mode(&plain_args()));
    let mut args = plain_args();
    args.gen_build = Some("b".to_string());
    assert!(is_generation_mode(&args));
    let mut args = plain_args();
    args.gen_app = Some("a".to_string());
    assert!(is_generation_mode(&args));
    let mut args = plain_args();
    args.gen_pipeline = Some("p".to_string());
    assert!(is_generation_mode(&args));
}

#[test]
fn test_url_generate_build() {
    let mut args = plain_args();
    args.gen_build = Some("xyz".to_string());
    let url = url_generate(&args).unwrap();
    assert_eq!(url.to_url(), "https://app.bitrise.io/build/xyz");
}

#[test]
fn test_url_generate_pipeline_needs_app_slug() {
    let mut args = plain_args();
    args.gen_pipeline = Some("pid".to_string());
    assert!(url_generate(&args).is_err());
    args.app_slug_for_pipeline = Some("abc".to_string());
    let url = url_generate(&args).unwrap();
    assert_eq!(url.to_url(), "https://app.bitrise.io/app/abc/pipelines/pid");
}

#[test]
fn test_url_generate_without_flags_fails() {
    assert!(url_generate(&plain_args()).is_err());
}

#[test]
fn test_validate_flags_for_url_type() {
    let build_url = BitriseUrl::Build {
        slug: "b".to_string(),
    };
    let app_url = BitriseUrl::App {
        slug: "a".to_string(),
    };
    let pipeline_url = BitriseUrl::Pipeline {
        app_slug: "a".to_string(),
        pipeline_id: "p".to_string(),
    };

    // Build-page actions are fine on a build URL.
    let mut args = plain_args();
    args.logs = true;
    assert!(validate_flags_for_url_type(&build_url, &args).is_ok());
    // Setting the default app is not.
    args.logs = false;
    args.set_default = true;
    assert!(validate_flags_for_url_type(&build_url, &args).is_err());

    // Setting the default is fine on an app URL; build actions are not.
    assert!(validate_flags_for_url_type(&app_url, &args).is_ok());
    let mut args = plain_args();
    args.follow = true;
    assert!(validate_flags_for_url_type(&app_url, &args).is_err());
    let mut args = plain_args();
    args.download_dir = Some("dir".to_string());
    assert!(validate_flags_for_url_type(&app_url, &args).is_err());

    // Pipelines accept neither.
    let mut args = plain_args();
    args.abort = true;
    assert!(validate_flags_for_url_type(&pipeline_url, &args).is_err());
    assert!(validate_flags_for_url_type(&pipeline_url, &plain_args()).is_ok());
}

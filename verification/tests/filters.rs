use reprise::apps::{filter_apps, find_app_by_name};
use reprise::args::{parse_env_var, BuildStatusFilter};
use reprise::artifacts::{
    filter_artifacts, matches_glob, sanitize_artifact_filename, sanitize_filename,
    simple_regex_match,
};
use reprise::builds::{compute_fetch_limit, filter_builds, rebuild_params};
use reprise::pipelines::filter_pipelines;
use reprise::remote::{host_allowed, join_chunks, log_source, validate_external_url, LogSource};
use reprise::types::{App, Artifact, Build, LogChunk, LogResponse, Owner, Pipeline};

fn make_app(slug: &str, title: &str) -> App {
    App {
        slug: slug.to_string(),
        title: title.to_string(),
        project_type: None,
        provider: None,
        repo_owner: None,
        repo_slug: None,
        repo_url: None,
        is_disabled: false,
        status: 1,
        is_public: false,
        owner: Owner {
            account_type: "user".to_string(),
            name: "Owner".to_string(),
            slug: "o".to_string(),
        },
    }
}

fn make_build(number: i64, by: Option<&str>, workflow: &str, at: i64) -> Build {
    Build {
        slug: format!("slug-{}", number),
        triggered_at: at,
        started_on_worker_at: None,
        finished_at: None,
        status: 0,
        status_text: "running".to_string(),
        abort_reason: None,
        branch: "main".to_string(),
        build_number: number,
        commit_hash: None,
        commit_message: None,
        tag: None,
        triggered_workflow: workflow.to_string(),
        triggered_by: by.map(|s| s.to_string()),
        stack_identifier: None,
        machine_type_id: None,
        pull_request_id: None,
        pull_request_target_branch: None,
        credit_cost: None,
    }
}

fn make_pipeline(status: i32, by: Option<&str>, at: Option<i64>) -> Pipeline {
    Pipeline {
        id: "id".to_string(),
        app_slug: "a".to_string(),
        status,
        status_text: None,
        triggered_at: at,
        started_at: None,
        finished_at: None,
        branch: "main".to_string(),
        pipeline_id: "p".to_string(),
        triggered_by: by.map(|s| s.to_string()),
        abort_reason: None,
        workflows: vec![],
    }
}

fn make_artifact(title: &str) -> Artifact {
    Artifact {
        title: title.to_string(),
        slug: "s".to_string(),
        artifact_type: None,
        file_size_bytes: None,
        is_public_page_enabled: false,
        expiring_download_url: None,
        public_install_page_url: None,
    }
}

#[test]
fn test_matches_glob_basics() {
    assert!(matches_glob("app.ipa", "*.ipa"));
    assert!(matches_glob("test-results.xml", "test-*"));
    assert!(matches_glob("App.dSYM.zip", "*.dSYM*"));
    assert!(!matches_glob("app.apk", "*.ipa"));
    assert!(matches_glob("abc", "a?c"));
    assert!(!matches_glob("abbc", "a?c"));
    assert!(matches_glob("ABC.IPA", "abc.ipa"));
}

#[test]
fn test_simple_regex_match() {
    assert!(simple_regex_match("abc", "^a.*c$"));
    assert!(simple_regex_match("abc", "a.c"));
    assert!(!simple_regex_match("abdc", "a.c"));
    assert!(simple_regex_match("a.c", "a\\.c"));
    assert!(!simple_regex_match("abc", "a\\.c"));
    assert!(simple_regex_match("", ".*"));
}

#[test]
fn test_filter_artifacts() {
    let artifacts = vec![
        make_artifact("app.ipa"),
        make_artifact("app.apk"),
        make_artifact("symbols.dSYM.zip"),
    ];
    let kept = filter_artifacts(&artifacts, Some("*.ipa"), None);
    assert_eq!(kept.len(), 1);
    assert_eq!(kept[0].title, "app.ipa");

    let kept = filter_artifacts(&artifacts, None, Some("*.apk"));
    assert_eq!(kept.len(), 2);

    let kept = filter_artifacts(&artifacts, None, None);
    assert_eq!(kept.len(), 3);
}

#[test]
fn test_sanitize_filename() {
    assert_eq!(sanitize_filename("app.ipa").unwrap(), "app.ipa");
    assert_eq!(sanitize_filename("dir/app.ipa").unwrap(), "app.ipa");
    // Leading directories are stripped, parent references included:
    // only the base name survives.
    assert_eq!(sanitize_filename("../evil.sh").unwrap(), "evil.sh");
    assert!(sanitize_filename("a/../").is_err());
    assert!(sanitize_filename(".hidden").is_err());
    assert!(sanitize_filename("").is_err());
    assert!(sanitize_filename("a/..").is_err());
    assert_eq!(sanitize_artifact_filename("x/y/z.apk").unwrap(), "z.apk");
}

#[test]
fn test_parse_env_var() {
    assert_eq!(
        parse_env_var("KEY=VALUE").unwrap(),
        ("KEY".to_string(), "VALUE".to_string())
    );
    assert_eq!(
        parse_env_var("K=a=b").unwrap(),
        ("K".to_string(), "a=b".to_string())
    );
    assert_eq!(parse_env_var("=v").unwrap(), ("".to_string(), "v".to_string()));
    assert!(parse_env_var("NOVALUE").is_err());
}

#[test]
fn test_build_status_filter_codes() {
    assert_eq!(BuildStatusFilter::Running.to_api_code(), 0);
    assert_eq!(BuildStatusFilter::Success.to_api_code(), 1);
    assert_eq!(BuildStatusFilter::Failed.to_api_code(), 2);
    assert_eq!(BuildStatusFilter::Aborted.to_api_code(), 3);
}

#[test]
fn test_compute_fetch_limit() {
    assert_eq!(compute_fetch_limit(25, false), 25);
    assert_eq!(compute_fetch_limit(80, false), 50);
    assert_eq!(compute_fetch_limit(10, true), 40);
    assert_eq!(compute_fetch_limit(25, true), 50);
}

#[test]
fn test_filter_builds_by_user_and_limit() {
    let builds = vec![
        make_build(1, Some("manual-alice"), "deploy", 100),
        make_build(2, Some("manual-bob"), "deploy", 200),
        make_build(3, Some("manual-alice"), "test", 300),
        make_build(4, None, "deploy", 400),
    ];
    let kept = filter_builds(builds, None, None, Some("alice"), None, None, 10);
    assert_eq!(kept.len(), 2);
    assert_eq!(kept[0].build_number, 1);
    assert_eq!(kept[1].build_number, 3);
}

#[test]
fn test_filter_builds_workflow_and_since() {
    let builds = vec![
        make_build(1, None, "Deploy-Prod", 100),
        make_build(2, None, "test", 200),
        make_build(3, None, "deploy-stage", 300),
    ];
    let kept = filter_builds(builds, None, None, None, Some("deploy"), Some(150), 10);
    assert_eq!(kept.len(), 1);
    assert_eq!(kept[0].build_number, 3);
}

#[test]
fn test_filter_builds_me() {
    let builds = vec![
        make_build(1, Some("webhook-github/alice"), "w", 0),
        make_build(2, Some("manual-bob"), "w", 0),
    ];
    let kept = filter_builds(builds, Some("bob"), Some("alice"), None, None, None, 10);
    assert_eq!(kept.len(), 2);

    let builds = vec![
        make_build(1, Some("webhook-github/alice"), "w", 0),
        make_build(2, Some("manual-bob"), "w", 0),
    ];
    let kept = filter_builds(builds, Some("carol"), Some("alice"), None, None, None, 10);
    assert_eq!(kept.len(), 1);
    assert_eq!(kept[0].build_number, 1);
}

#[test]
fn test_filter_builds_limit_cuts() {
    let builds = vec![
        make_build(1, None, "w", 0),
        make_build(2, None, "w", 0),
        make_build(3, None, "w", 0),
    ];
    let kept = filter_builds(builds, None, None, None, None, None, 2);
    assert_eq!(kept.len(), 2);
    assert_eq!(kept[0].build_number, 1);
    assert_eq!(kept[1].build_number, 2);
}

#[test]
fn test_filter_pipelines_status_and_since() {
    let pipelines = vec![
        make_pipeline(1, None, Some(100)),
        make_pipeline(2, None, Some(200)),
        make_pipeline(1, None, Some(300)),
        make_pipeline(1, None, None),
    ];
    let kept = filter_pipelines(pipelines, Some(1), None, None, None, Some(150), 10);
    assert_eq!(kept.len(), 1);
    assert_eq!(kept[0].triggered_at, Some(300));
}

#[test]
fn test_filter_apps() {
    let apps = vec![
        make_app("a1", "My iOS App"),
        make_app("a2", "Android Thing"),
        make_app("a3", "ios helper"),
    ];
    let kept = filter_apps(apps, Some("ios"), 50);
    assert_eq!(kept.len(), 2);

    let apps = vec![
        make_app("a1", "One"),
        make_app("a2", "Two"),
        make_app("a3", "Three"),
    ];
    let kept = filter_apps(apps, None, 2);
    assert_eq!(kept.len(), 2);
    assert_eq!(kept[0].slug, "a1");
}

#[test]
fn test_find_app_by_name() {
    let apps = vec![make_app("a1", "Alpha"), make_app("a2", "Beta Project")];
    let found = find_app_by_name(apps, "beta").unwrap();
    assert_eq!(found.slug, "a2");

    let apps = vec![make_app("a1", "Alpha")];
    assert!(find_app_by_name(apps, "missing").is_none());
}

#[test]
fn test_rebuild_params() {
    let build = make_build(9, None, "nightly", 0);
    let p = rebuild_params(&build);
    assert_eq!(p.branch, Some("main".to_string()));
    assert_eq!(p.workflow_id, "nightly");
    assert!(p.environments.is_empty());
}

#[test]
fn test_host_allowed() {
    assert!(host_allowed("app.bitrise.io"));
    assert!(host_allowed("bitrise.io"));
    assert!(host_allowed("api.bitrise.io"));
    assert!(host_allowed("storage.googleapis.com"));
    assert!(host_allowed("bitrise-build-log-archives.s3.amazonaws.com"));
    assert!(!host_allowed("evil.com"));
    assert!(!host_allowed("notbitrise.io.evil.com"));
    assert!(!host_allowed("xbitrise.io"));
}

#[test]
fn test_validate_external_url_allowed_bitrise() {
    assert!(validate_external_url("https://app.bitrise.io/log/123", "Log").is_ok());
}

#[test]
fn test_validate_external_url_allowed_s3() {
    assert!(validate_external_url(
        "https://bitrise-build-log-archives.s3.amazonaws.com/log.txt",
        "Log"
    )
    .is_ok());
}

#[test]
fn test_validate_external_url_blocked_untrusted() {
    let result = validate_external_url("https://evil.com/malicious", "Log");
    assert!(result.is_err());
    match result.unwrap_err() {
        reprise::error::RepriseError::InvalidArgument(m) => {
            assert!(m.contains("untrusted host"))
        }
        _ => panic!("expected an invalid-argument error"),
    }
}

#[test]
fn test_validate_external_url_invalid_url() {
    let result = validate_external_url("not-a-valid-url", "Log");
    assert!(result.is_err());
    match result.unwrap_err() {
        reprise::error::RepriseError::InvalidArgument(m) => assert!(m.contains("Invalid")),
        _ => panic!("expected an invalid-argument error"),
    }
}

#[test]
fn test_join_chunks_and_log_source() {
    let resp = LogResponse {
        log_chunks: vec![
            LogChunk {
                chunk: "Hello ".to_string(),
                position: 0,
            },
            LogChunk {
                chunk: "world".to_string(),
                position: 1,
            },
        ],
        expiring_raw_log_url: None,
        is_archived: false,
    };
    assert_eq!(join_chunks(&resp.log_chunks), "Hello world");
    match log_source(resp) {
        LogSource::Content(c) => assert_eq!(c, "Hello world"),
        _ => panic!("expected joined chunk content"),
    }

    let resp = LogResponse {
        log_chunks: vec![],
        expiring_raw_log_url: Some("https://app.bitrise.io/raw".to_string()),
        is_archived: true,
    };
    match log_source(resp) {
        LogSource::RawUrl(u) => assert_eq!(u, "https://app.bitrise.io/raw"),
        _ => panic!("expected the raw URL"),
    }
}

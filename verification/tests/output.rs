use reprise::output::{
    first_n_chars, format_age, format_app, format_apps, format_artifacts, format_build,
    format_builds, format_pipeline, format_pipelines, line_category, truncate_str, LogLineKind,
};
use reprise::types::{App, Artifact, Build, Owner, Pipeline, PipelineWorkflow};

fn make_test_app(slug: &str, title: &str, disabled: bool) -> App {
    App {
        slug: slug.to_string(),
        title: title.to_string(),
        project_type: Some("ios".to_string()),
        provider: Some("github".to_string()),
        repo_owner: Some("testowner".to_string()),
        repo_slug: Some("testrepo".to_string()),
        repo_url: Some("https://github.com/test/repo".to_string()),
        is_disabled: disabled,
        status: 1,
        is_public: false,
        owner: Owner {
            account_type: "user".to_string(),
            name: "Test User".to_string(),
            slug: "user-slug".to_string(),
        },
    }
}

fn make_test_artifact(slug: &str, title: &str, size: Option<i64>) -> Artifact {
    Artifact {
        title: title.to_string(),
        slug: slug.to_string(),
        artifact_type: Some("file".to_string()),
        file_size_bytes: size,
        is_public_page_enabled: false,
        expiring_download_url: None,
        public_install_page_url: None,
    }
}

#[test]
fn test_truncate_str_short() {
    assert_eq!(truncate_str("hello", 10), "hello");
}

#[test]
fn test_truncate_str_exact() {
    assert_eq!(truncate_str("hello", 5), "hello");
}

#[test]
fn test_truncate_str_long() {
    assert_eq!(truncate_str("hello world", 8), "hello...");
}

#[test]
fn test_truncate_str_unicode() {
    assert_eq!(truncate_str("héllo wörld", 8), "héllo...");
}

#[test]
fn test_first_n_chars_short() {
    assert_eq!(first_n_chars("abc", 5), "abc");
}

#[test]
fn test_first_n_chars_exact() {
    assert_eq!(first_n_chars("abc", 3), "abc");
}

#[test]
fn test_first_n_chars_long() {
    assert_eq!(first_n_chars("abcdef", 3), "abc");
}

#[test]
fn pretty_test_format_apps_empty() {
    let result = format_apps(&vec![]);
    assert_eq!(result, "No apps found.");
}

#[test]
fn test_format_apps_contains_title() {
    let apps = vec![make_test_app("slug1", "My App", false)];
    let result = format_apps(&apps);
    assert!(result.contains("My App"));
}

#[test]
fn test_format_apps_contains_slug() {
    let apps = vec![make_test_app("slug1", "My App", false)];
    let result = format_apps(&apps);
    assert!(result.contains("slug1"));
}

#[test]
fn test_format_apps_contains_owner() {
    let apps = vec![make_test_app("slug1", "My App", false)];
    let result = format_apps(&apps);
    assert!(result.contains("Test User"));
}

#[test]
fn test_format_apps_multiple() {
    let apps = vec![
        make_test_app("app1", "First App", false),
        make_test_app("app2", "Second App", true),
    ];
    let result = format_apps(&apps);
    assert!(result.contains("First App"));
    assert!(result.contains("Second App"));
    assert!(result.contains("app1"));
    assert!(result.contains("app2"));
}

#[test]
fn test_format_app_contains_title() {
    let app = make_test_app("test-slug", "Test App", false);
    let result = format_app(&app);
    assert!(result.contains("Test App"));
}

#[test]
fn test_format_app_contains_slug() {
    let app = make_test_app("test-slug", "Test App", false);
    let result = format_app(&app);
    assert!(result.contains("test-slug"));
}

#[test]
fn test_format_app_contains_url() {
    let app = make_test_app("test-slug", "Test App", false);
    let result = format_app(&app);
    assert!(result.contains("https://app.bitrise.io/app/test-slug"));
}

#[test]
fn test_format_app_contains_owner() {
    let app = make_test_app("test-slug", "Test App", false);
    let result = format_app(&app);
    assert!(result.contains("Test User"));
    assert!(result.contains("user"));
}

#[test]
fn test_format_app_contains_visibility() {
    let mut app = make_test_app("test-slug", "Test App", false);
    app.is_public = true;
    let result = format_app(&app);
    assert!(result.contains("public"));
}

#[test]
fn pretty_test_format_artifacts_empty() {
    let result = format_artifacts(&vec![]);
    assert_eq!(result, "No artifacts found.");
}

#[test]
fn test_format_artifacts_contains_title() {
    let artifacts = vec![make_test_artifact("art1", "my-app.ipa", Some(1024))];
    let result = format_artifacts(&artifacts);
    assert!(result.contains("my-app.ipa"));
}

#[test]
fn test_format_artifacts_contains_slug() {
    let artifacts = vec![make_test_artifact("artifact-slug-123", "app.ipa", Some(1024))];
    let result = format_artifacts(&artifacts);
    assert!(result.contains("artifact-slug-123"));
}

#[test]
fn test_format_artifacts_contains_size() {
    let artifacts = vec![make_test_artifact("art1", "app.ipa", Some(2048))];
    let result = format_artifacts(&artifacts);
    assert!(result.contains("2.0 KB"));
}

#[test]
fn test_format_artifacts_shows_public_indicator() {
    let mut artifact = make_test_artifact("art1", "app.ipa", Some(1024));
    artifact.is_public_page_enabled = true;
    artifact.public_install_page_url = Some("https://install.example.com".to_string());
    let result = format_artifacts(&vec![artifact]);
    assert!(result.contains("yes"));
    assert!(result.contains("https://install.example.com"));
}

#[test]
fn test_format_artifacts_count_singular() {
    let artifacts = vec![make_test_artifact("art1", "app.ipa", Some(1024))];
    let result = format_artifacts(&artifacts);
    assert!(result.contains("1 artifact)"));
}

#[test]
fn test_format_artifacts_count_plural() {
    let artifacts = vec![
        make_test_artifact("art1", "app.ipa", Some(1024)),
        make_test_artifact("art2", "app.apk", Some(2048)),
    ];
    let result = format_artifacts(&artifacts);
    assert!(result.contains("2 artifacts)"));
}

#[test]
fn test_format_age_ranges() {
    assert_eq!(format_age(45), "45s");
    assert_eq!(format_age(330), "5m 30s");
    assert_eq!(format_age(9000), "2h 30m");
}

#[test]
fn test_line_category() {
    assert_eq!(line_category("an ERROR happened"), LogLineKind::Error);
    assert_eq!(line_category("E something"), LogLineKind::Error);
    assert_eq!(line_category("build failed"), LogLineKind::Error);
    assert_eq!(line_category("just a Warning"), LogLineKind::Warning);
    assert_eq!(line_category("W stuff"), LogLineKind::Warning);
    assert_eq!(line_category("tests passed"), LogLineKind::Success);
    assert_eq!(line_category("BUILD SUCCESSFUL"), LogLineKind::Success);
    assert_eq!(line_category("plain text"), LogLineKind::Normal);
}

fn make_test_build(slug: &str, build_number: i64, status: i32) -> Build {
    Build {
        slug: slug.to_string(),
        triggered_at: 1704110400,                  // 2024-01-01 12:00:00
        started_on_worker_at: Some(1704110460),    // 12:01:00
        finished_at: Some(1704110790),             // 12:06:30
        status,
        status_text: "test".to_string(),
        abort_reason: None,
        branch: "main".to_string(),
        build_number,
        commit_hash: Some("abc1234567890".to_string()),
        commit_message: Some("Test commit message".to_string()),
        tag: None,
        triggered_workflow: "primary".to_string(),
        triggered_by: Some("manual".to_string()),
        stack_identifier: Some("osx-xcode-14.3".to_string()),
        machine_type_id: Some("g2-m1.4core".to_string()),
        pull_request_id: None,
        pull_request_target_branch: None,
        credit_cost: Some(10),
    }
}

fn make_test_pipeline(id: &str, status: i32) -> Pipeline {
    Pipeline {
        id: id.to_string(),
        app_slug: "test-app".to_string(),
        status,
        status_text: Some("test".to_string()),
        triggered_at: Some(1704110400),
        started_at: Some(1704110460),
        finished_at: Some(1704111000),
        branch: "main".to_string(),
        pipeline_id: "build-and-test".to_string(),
        triggered_by: Some("webhook".to_string()),
        abort_reason: None,
        workflows: vec![],
    }
}

#[test]
fn test_format_builds_empty() {
    let result = format_builds(&vec![]);
    assert_eq!(result, "No builds found.");
}

#[test]
fn test_format_builds_contains_build_number() {
    let builds = vec![make_test_build("slug1", 123, 1)];
    let result = format_builds(&builds);
    assert!(result.contains("123"));
}

#[test]
fn test_format_builds_contains_slug() {
    let builds = vec![make_test_build("build-slug-123", 1, 1)];
    let result = format_builds(&builds);
    assert!(result.contains("build-slug-123"));
}

#[test]
fn test_format_builds_contains_branch() {
    let builds = vec![make_test_build("slug1", 1, 1)];
    let result = format_builds(&builds);
    assert!(result.contains("main"));
}

#[test]
fn test_format_builds_contains_triggered_by() {
    let builds = vec![make_test_build("slug1", 1, 1)];
    let result = format_builds(&builds);
    assert!(result.contains("manual"));
}

#[test]
fn test_format_builds_shows_pr() {
    let mut build = make_test_build("slug1", 1, 1);
    build.pull_request_id = Some(42);
    let result = format_builds(&vec![build]);
    assert!(result.contains("PR"));
    assert!(result.contains("42"));
}

#[test]
fn test_format_build_contains_slug() {
    let build = make_test_build("build-abc123", 1, 1);
    let result = format_build(&build);
    assert!(result.contains("build-abc123"));
}

#[test]
fn test_format_build_contains_url() {
    let build = make_test_build("build-abc123", 1, 1);
    let result = format_build(&build);
    assert!(result.contains("https://app.bitrise.io/build/build-abc123"));
}

#[test]
fn test_format_build_contains_workflow() {
    let build = make_test_build("slug1", 1, 1);
    let result = format_build(&build);
    assert!(result.contains("primary"));
}

#[test]
fn test_format_build_contains_commit() {
    let build = make_test_build("slug1", 1, 1);
    let result = format_build(&build);
    assert!(result.contains("abc1234")); // First 7 chars
}

#[test]
fn test_format_build_contains_stack() {
    let build = make_test_build("slug1", 1, 1);
    let result = format_build(&build);
    assert!(result.contains("osx-xcode-14.3"));
}

#[test]
fn test_format_build_contains_credits() {
    let build = make_test_build("slug1", 1, 1);
    let result = format_build(&build);
    assert!(result.contains("10"));
}

#[test]
fn test_format_build_shows_pr_info() {
    let mut build = make_test_build("slug1", 1, 1);
    build.pull_request_id = Some(99);
    build.pull_request_target_branch = Some("develop".to_string());
    let result = format_build(&build);
    assert!(result.contains("99"));
    assert!(result.contains("develop"));
}

#[test]
fn test_format_pipelines_empty() {
    let result = format_pipelines(&vec![]);
    assert_eq!(result, "No pipelines found.");
}

#[test]
fn test_format_pipelines_contains_id() {
    let pipelines = vec![make_test_pipeline("pipeline-uuid-123", 1)];
    let result = format_pipelines(&pipelines);
    assert!(result.contains("pipeline-uuid-123"));
}

#[test]
fn test_format_pipelines_contains_branch() {
    let pipelines = vec![make_test_pipeline("id1", 1)];
    let result = format_pipelines(&pipelines);
    assert!(result.contains("main"));
}

#[test]
fn test_format_pipelines_contains_triggered_by() {
    let pipelines = vec![make_test_pipeline("id1", 1)];
    let result = format_pipelines(&pipelines);
    assert!(result.contains("webhook"));
}

#[test]
fn test_format_pipelines_shows_workflows_when_running() {
    let mut pipeline = make_test_pipeline("id1", 0); // Running
    pipeline.workflows = vec![
        PipelineWorkflow {
            id: "wf1".to_string(),
            name: "build".to_string(),
            status: 1,
            status_text: Some("success".to_string()),
        },
        PipelineWorkflow {
            id: "wf2".to_string(),
            name: "test".to_string(),
            status: 0,
            status_text: Some("running".to_string()),
        },
    ];
    let result = format_pipelines(&vec![pipeline]);
    assert!(result.contains("build"));
    assert!(result.contains("test"));
}

#[test]
fn test_format_pipeline_contains_id() {
    let pipeline = make_test_pipeline("full-pipeline-uuid", 1);
    let result = format_pipeline(&pipeline);
    assert!(result.contains("full-pipeline-uuid"));
}

#[test]
fn test_format_pipeline_contains_url() {
    let pipeline = make_test_pipeline("pipeline-id", 1);
    let result = format_pipeline(&pipeline);
    assert!(result.contains("https://app.bitrise.io/app/test-app/pipelines/pipeline-id"));
}

#[test]
fn test_format_pipeline_contains_app_slug() {
    let pipeline = make_test_pipeline("id1", 1);
    let result = format_pipeline(&pipeline);
    assert!(result.contains("test-app"));
}

#[test]
fn test_format_pipeline_shows_workflows() {
    let mut pipeline = make_test_pipeline("id1", 1);
    pipeline.workflows = vec![PipelineWorkflow {
        id: "wf1".to_string(),
        name: "build-workflow".to_string(),
        status: 1,
        status_text: Some("success".to_string()),
    }];
    let result = format_pipeline(&pipeline);
    assert!(result.contains("build-workflow"));
    assert!(result.contains("Workflows"));
}

use reprise::types::{Artifact, Build, Pipeline, PipelineWorkflow};

fn make_build(status: i32, started: Option<i64>, finished: Option<i64>) -> Build {
    Build {
        slug: "test-slug".to_string(),
        triggered_at: 1704110400,
        started_on_worker_at: started,
        finished_at: finished,
        status,
        status_text: "test".to_string(),
        abort_reason: None,
        branch: "main".to_string(),
        build_number: 1,
        commit_hash: None,
        commit_message: None,
        tag: None,
        triggered_workflow: "primary".to_string(),
        triggered_by: None,
        stack_identifier: None,
        machine_type_id: None,
        pull_request_id: None,
        pull_request_target_branch: None,
        credit_cost: None,
    }
}

fn make_pipeline(status: i32, started: Option<i64>, finished: Option<i64>) -> Pipeline {
    Pipeline {
        id: "test-id".to_string(),
        app_slug: "test-app".to_string(),
        status,
        status_text: Some("test".to_string()),
        triggered_at: Some(1704110400),
        started_at: started,
        finished_at: finished,
        branch: "main".to_string(),
        pipeline_id: "test-pipeline".to_string(),
        triggered_by: None,
        abort_reason: None,
        workflows: vec![],
    }
}

fn make_workflow(status: i32) -> PipelineWorkflow {
    PipelineWorkflow {
        id: "wf-id".to_string(),
        name: "build".to_string(),
        status,
        status_text: Some("running".to_string()),
    }
}

fn make_artifact(size: Option<i64>) -> Artifact {
    Artifact {
        title: "test.ipa".to_string(),
        slug: "artifact-slug".to_string(),
        artifact_type: Some("file".to_string()),
        file_size_bytes: size,
        is_public_page_enabled: false,
        expiring_download_url: None,
        public_install_page_url: None,
    }
}

#[test]
fn test_pipeline_workflow_status_display_running() {
    let wf = make_workflow(0);
    assert_eq!(wf.status_display(), "running");
}

#[test]
fn test_pipeline_workflow_status_display_success() {
    let wf = make_workflow(1);
    assert_eq!(wf.status_display(), "success");
}

#[test]
fn test_pipeline_workflow_status_display_failed() {
    let wf = make_workflow(2);
    assert_eq!(wf.status_display(), "failed");
}

#[test]
fn test_pipeline_workflow_status_display_aborted() {
    let wf = make_workflow(3);
    assert_eq!(wf.status_display(), "aborted");
}

#[test]
fn test_pipeline_workflow_status_display_unknown() {
    let wf = make_workflow(99);
    assert_eq!(wf.status_display(), "unknown");
}

#[test]
fn test_artifact_size_display_bytes() {
    let artifact = make_artifact(Some(500));
    assert_eq!(artifact.size_display(), "500 B");
}

#[test]
fn test_artifact_size_display_kilobytes() {
    let artifact = make_artifact(Some(2048));
    assert_eq!(artifact.size_display(), "2.0 KB");
}

#[test]
fn test_artifact_size_display_megabytes() {
    let artifact = make_artifact(Some(5 * 1024 * 1024));
    assert_eq!(artifact.size_display(), "5.0 MB");
}

#[test]
fn test_artifact_size_display_fractional_kb() {
    let artifact = make_artifact(Some(1536)); // 1.5 KB
    assert_eq!(artifact.size_display(), "1.5 KB");
}

#[test]
fn test_artifact_size_display_fractional_mb() {
    let artifact = make_artifact(Some(3 * 1024 * 1024 + 512 * 1024)); // 3.5 MB
    assert_eq!(artifact.size_display(), "3.5 MB");
}

#[test]
fn test_artifact_size_display_none() {
    let artifact = make_artifact(None);
    assert_eq!(artifact.size_display(), "-");
}

#[test]
fn test_artifact_size_display_zero() {
    let artifact = make_artifact(Some(0));
    assert_eq!(artifact.size_display(), "0 B");
}

#[test]
fn test_artifact_size_display_boundary_1kb() {
    let artifact = make_artifact(Some(1023));
    assert_eq!(artifact.size_display(), "1023 B");

    let artifact = make_artifact(Some(1024));
    assert_eq!(artifact.size_display(), "1.0 KB");
}

#[test]
fn test_artifact_size_display_boundary_1mb() {
    let artifact = make_artifact(Some(1024 * 1024 - 1));
    assert!(artifact.size_display().contains("KB"));

    let artifact = make_artifact(Some(1024 * 1024));
    assert_eq!(artifact.size_display(), "1.0 MB");
}

#[test]
fn test_build_status_display_running() {
    let build = make_build(0, None, None);
    assert_eq!(build.status_display(), "running");
}

#[test]
fn test_build_status_display_success() {
    let build = make_build(1, None, None);
    assert_eq!(build.status_display(), "success");
}

#[test]
fn test_build_status_display_failed() {
    let build = make_build(2, None, None);
    assert_eq!(build.status_display(), "failed");
}

#[test]
fn test_build_status_display_aborted() {
    let build = make_build(3, None, None);
    assert_eq!(build.status_display(), "aborted");
}

#[test]
fn test_build_status_display_aborted_success() {
    let build = make_build(4, None, None);
    assert_eq!(build.status_display(), "aborted-success");
}

#[test]
fn test_build_status_display_unknown() {
    let build = make_build(99, None, None);
    assert_eq!(build.status_display(), "unknown");
}

const NOON: i64 = 1704110400; // 2024-01-01 12:00:00 UTC

#[test]
fn test_build_duration_with_timestamps() {
    let build = make_build(1, Some(NOON), Some(NOON + 330));
    let duration = build.duration().unwrap();
    assert_eq!(duration, 330); // 5m 30s
}

#[test]
fn test_build_duration_without_start() {
    let build = make_build(1, None, Some(NOON + 330));
    assert!(build.duration().is_none());
}

#[test]
fn test_build_duration_without_end() {
    let build = make_build(0, Some(NOON), None);
    assert!(build.duration().is_none());
}

#[test]
fn test_build_duration_display_seconds() {
    let build = make_build(1, Some(NOON), Some(NOON + 45));
    assert_eq!(build.duration_display(), "45s");
}

#[test]
fn test_build_duration_display_minutes() {
    let build = make_build(1, Some(NOON), Some(NOON + 330));
    assert_eq!(build.duration_display(), "5m 30s");
}

#[test]
fn test_build_duration_display_hours() {
    let build = make_build(1, Some(NOON), Some(NOON + 9000));
    assert_eq!(build.duration_display(), "2h 30m");
}

#[test]
fn test_build_duration_display_no_duration() {
    let build = make_build(0, None, None);
    assert_eq!(build.duration_display(), "-");
}

#[test]
fn test_build_is_running_true() {
    let build = make_build(0, None, None);
    assert!(build.is_running());
}

#[test]
fn test_build_is_running_false() {
    let build = make_build(1, None, None);
    assert!(!build.is_running());
}

#[test]
fn test_build_is_failed_true() {
    let build = make_build(2, None, None);
    assert!(build.is_failed());
}

#[test]
fn test_build_is_failed_false() {
    let build = make_build(1, None, None);
    assert!(!build.is_failed());
}

#[test]
fn test_pipeline_status_display_running() {
    let pipeline = make_pipeline(0, None, None);
    assert_eq!(pipeline.status_display(), "running");
}

#[test]
fn test_pipeline_status_display_success() {
    let pipeline = make_pipeline(1, None, None);
    assert_eq!(pipeline.status_display(), "success");
}

#[test]
fn test_pipeline_status_display_failed() {
    let pipeline = make_pipeline(2, None, None);
    assert_eq!(pipeline.status_display(), "failed");
}

#[test]
fn test_pipeline_status_display_aborted() {
    let pipeline = make_pipeline(3, None, None);
    assert_eq!(pipeline.status_display(), "aborted");
}

#[test]
fn test_pipeline_status_display_aborted_success() {
    let pipeline = make_pipeline(4, None, None);
    assert_eq!(pipeline.status_display(), "aborted-success");
}

#[test]
fn test_pipeline_status_display_unknown() {
    let pipeline = make_pipeline(99, None, None);
    assert_eq!(pipeline.status_display(), "unknown");
}

#[test]
fn test_pipeline_duration_with_timestamps() {
    let pipeline = make_pipeline(1, Some(NOON), Some(NOON + 600));
    let duration = pipeline.duration().unwrap();
    assert_eq!(duration, 600); // 10 minutes
}

#[test]
fn test_pipeline_duration_without_timestamps() {
    let pipeline = make_pipeline(0, None, None);
    assert!(pipeline.duration().is_none());
}

#[test]
fn test_pipeline_duration_display_seconds() {
    let pipeline = make_pipeline(1, Some(NOON), Some(NOON + 30));
    assert_eq!(pipeline.duration_display(), "30s");
}

#[test]
fn test_pipeline_duration_display_minutes() {
    let pipeline = make_pipeline(1, Some(NOON), Some(NOON + 945));
    assert_eq!(pipeline.duration_display(), "15m 45s");
}

#[test]
fn test_pipeline_duration_display_hours() {
    let pipeline = make_pipeline(1, Some(NOON), Some(NOON + 12000));
    assert_eq!(pipeline.duration_display(), "3h 20m");
}

#[test]
fn test_pipeline_duration_display_no_duration() {
    let pipeline = make_pipeline(0, None, None);
    assert_eq!(pipeline.duration_display(), "-");
}

#[test]
fn test_pipeline_is_running_true() {
    let pipeline = make_pipeline(0, None, None);
    assert!(pipeline.is_running());
}

#[test]
fn test_pipeline_is_running_false() {
    let pipeline = make_pipeline(1, None, None);
    assert!(!pipeline.is_running());
}

#[test]
fn test_pipeline_is_failed_true() {
    let pipeline = make_pipeline(2, None, None);
    assert!(pipeline.is_failed());
}

#[test]
fn test_pipeline_is_failed_false() {
    let pipeline = make_pipeline(1, None, None);
    assert!(!pipeline.is_failed());
}

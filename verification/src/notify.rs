//! Completion-notification content: which title, body and icon a
//! desktop notification carries for a finished build or pipeline.
//! Delivering the notification is a best-effort affair of the
//! surrounding program; a delivery failure is never an error.

use vstd::prelude::*;
use vstd::string::StringExecFns;

use crate::strutil::{spec_dec_i64, i64_dec_str};
use crate::types::{spec_duration, spec_duration_display, Build, Pipeline};

verus! {

/// The text and icon of one desktop notification.
pub struct NotificationContent {
    pub summary: String,
    pub body: String,
    pub icon: String,
}

/// The completion title for a build status code.
pub open spec fn spec_build_title(status: int) -> Seq<char> {
    if status == 1 {
        "Build Succeeded"@
    } else if status == 2 {
        "Build Failed"@
    } else if status == 3 {
        "Build Aborted"@
    } else {
        "Build Completed"@
    }
}

/// The icon name for a build status code.
pub open spec fn spec_build_icon(status: int) -> Seq<char> {
    if status == 1 {
        "dialog-positive"@
    } else if status == 2 {
        "dialog-error"@
    } else if status == 3 {
        "dialog-warning"@
    } else {
        "dialog-information"@
    }
}

/// The notification content for a finished build: a status-dependent
/// title, the app's name (or a generic one) with the build number,
/// and the workflow, branch and duration in the body.
pub fn build_completed_content(build: &Build, app_name: Option<&str>) -> (r: NotificationContent)
    ensures
        r.summary@ == spec_build_title(build.status as int) + ": "@ + (match app_name {
            Some(a) => a@,
            None => "Bitrise"@,
        }) + " - #"@ + spec_dec_i64(build.build_number as int),
        r.body@ == "Workflow: "@ + build.triggered_workflow@ + "\nBranch: "@ + build.branch@
            + "\nDuration: "@ + spec_duration_display(
            spec_duration(build.started_on_worker_at, build.finished_at),
        ),
        r.icon@ == spec_build_icon(build.status as int),
{
    let mut summary = String::new();
    if build.status == 1 {
        summary.append("Build Succeeded");
    } else if build.status == 2 {
        summary.append("Build Failed");
    } else if build.status == 3 {
        summary.append("Build Aborted");
    } else {
        summary.append("Build Completed");
    }
    summary.append(": ");
    match app_name {
        Some(a) => summary.append(a),
        None => summary.append("Bitrise"),
    }
    summary.append(" - #");
    let num = i64_dec_str(build.build_number);
    summary.append(num.as_str());
    let mut body = String::new();
    body.append("Workflow: ");
    body.append(build.triggered_workflow.as_str());
    body.append("\nBranch: ");
    body.append(build.branch.as_str());
    body.append("\nDuration: ");
    let dur = build.duration_display();
    body.append(dur.as_str());
    let mut icon = String::new();
    if build.status == 1 {
        icon.append("dialog-positive");
    } else if build.status == 2 {
        icon.append("dialog-error");
    } else if build.status == 3 {
        icon.append("dialog-warning");
    } else {
        icon.append("dialog-information");
    }
    NotificationContent { summary, body, icon }
}

/// The notification content for a freshly triggered build.
pub fn build_triggered_content(build: &Build, app_name: Option<&str>) -> (r: NotificationContent)
    ensures
        r.summary@ == "Build Triggered - "@ + (match app_name {
            Some(a) => a@,
            None => "Bitrise"@,
        }),
        r.body@ == "Build #"@ + spec_dec_i64(build.build_number as int) + "\nWorkflow: "@
            + build.triggered_workflow@ + "\nBranch: "@ + build.branch@,
        r.icon@ == "media-playback-start"@,
{
    let mut summary = String::new();
    summary.append("Build Triggered - ");
    match app_name {
        Some(a) => summary.append(a),
        None => summary.append("Bitrise"),
    }
    let mut body = String::new();
    body.append("Build #");
    let num = i64_dec_str(build.build_number);
    body.append(num.as_str());
    body.append("\nWorkflow: ");
    body.append(build.triggered_workflow.as_str());
    body.append("\nBranch: ");
    body.append(build.branch.as_str());
    let mut icon = String::new();
    icon.append("media-playback-start");
    NotificationContent { summary, body, icon }
}

/// The completion title for a pipeline status code.
pub open spec fn spec_pipeline_title(status: int) -> Seq<char> {
    if status == 1 {
        "Pipeline Succeeded"@
    } else if status == 2 {
        "Pipeline Failed"@
    } else if status == 3 {
        "Pipeline Aborted"@
    } else {
        "Pipeline Finished"@
    }
}

/// The completion body for a pipeline: its name and how it ended.
pub open spec fn spec_pipeline_body(status: int, name: Seq<char>) -> Seq<char> {
    if status == 1 {
        "Pipeline "@ + name + " completed successfully"@
    } else if status == 2 {
        "Pipeline "@ + name + " failed"@
    } else if status == 3 {
        "Pipeline "@ + name + " was aborted"@
    } else {
        "Pipeline "@ + name + " finished"@
    }
}

/// The notification content for a finished pipeline.
pub fn pipeline_completed_content(pipeline: &Pipeline) -> (r: NotificationContent)
    ensures
        r.summary@ == spec_pipeline_title(pipeline.status as int),
        r.body@ == spec_pipeline_body(pipeline.status as int, pipeline.pipeline_id@),
        r.icon@ == "dialog-information"@,
{
    let mut summary = String::new();
    let mut body = String::new();
    body.append("Pipeline ");
    body.append(pipeline.pipeline_id.as_str());
    if pipeline.status == 1 {
        summary.append("Pipeline Succeeded");
        body.append(" completed successfully");
    } else if pipeline.status == 2 {
        summary.append("Pipeline Failed");
        body.append(" failed");
    } else if pipeline.status == 3 {
        summary.append("Pipeline Aborted");
        body.append(" was aborted");
    } else {
        summary.append("Pipeline Finished");
        body.append(" finished");
    }
    let mut icon = String::new();
    icon.append("dialog-information");
    NotificationContent { summary, body, icon }
}

} // verus!

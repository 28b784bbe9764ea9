//! Data model for the remote CI service: apps, builds, pipelines,
//! artifacts, logs, and users. Timestamps are carried as seconds since
//! the Unix epoch; the surrounding program converts to and from the
//! wire's RFC 3339 strings.

use vstd::prelude::*;
use vstd::string::StringExecFns;

use crate::strutil::{spec_dec, spec_dec_i64, i64_dec_str, u64_dec_str};

verus! {

/// Pagination information
pub struct Paging {
    pub total_item_count: i64,
    pub page_item_limit: i64,
    pub next: Option<String>,
}

/// App owner information
pub struct Owner {
    pub account_type: String,
    pub name: String,
    pub slug: String,
}

/// An application registered with the service
pub struct App {
    pub slug: String,
    pub title: String,
    pub project_type: Option<String>,
    pub provider: Option<String>,
    pub repo_owner: Option<String>,
    pub repo_slug: Option<String>,
    pub repo_url: Option<String>,
    pub is_disabled: bool,
    pub status: i32,
    pub is_public: bool,
    pub owner: Owner,
}

/// Response wrapper for app list
pub struct AppListResponse {
    pub data: Vec<App>,
    pub paging: Paging,
}

/// Response wrapper for single app
pub struct AppResponse {
    pub data: App,
}

/// A build: one run of a workflow
pub struct Build {
    pub slug: String,
    pub triggered_at: i64,
    pub started_on_worker_at: Option<i64>,
    pub finished_at: Option<i64>,
    pub status: i32,
    pub status_text: String,
    pub abort_reason: Option<String>,
    pub branch: String,
    pub build_number: i64,
    pub commit_hash: Option<String>,
    pub commit_message: Option<String>,
    pub tag: Option<String>,
    pub triggered_workflow: String,
    pub triggered_by: Option<String>,
    pub stack_identifier: Option<String>,
    pub machine_type_id: Option<String>,
    pub pull_request_id: Option<i64>,
    pub pull_request_target_branch: Option<String>,
    pub credit_cost: Option<i32>,
}

/// Response wrapper for build list
pub struct BuildListResponse {
    pub data: Vec<Build>,
    pub paging: Paging,
}

/// Response wrapper for single build
pub struct BuildResponse {
    pub data: Build,
}

/// The human status label for a status code.
pub open spec fn spec_status_display(status: int) -> Seq<char> {
    if status == 0 {
        "running"@
    } else if status == 1 {
        "success"@
    } else if status == 2 {
        "failed"@
    } else if status == 3 {
        "aborted"@
    } else if status == 4 {
        "aborted-success"@
    } else {
        "unknown"@
    }
}

/// The duration between two optional timestamps, in seconds, where both
/// are known and the difference fits in `i64`.
pub open spec fn spec_duration(start: Option<i64>, end: Option<i64>) -> Option<i64> {
    match (start, end) {
        (Some(a), Some(b)) => if i64::MIN <= b - a <= i64::MAX {
            Some((b - a) as i64)
        } else {
            None
        },
        _ => None,
    }
}

/// A duration in seconds rendered for humans: seconds below a minute,
/// minutes and seconds below an hour, hours and minutes above, and a
/// dash when unknown.
pub open spec fn spec_duration_display(d: Option<i64>) -> Seq<char> {
    match d {
        Some(secs) => if secs < 60 {
            spec_dec_i64(secs as int) + "s"@
        } else if secs < 3600 {
            spec_dec_i64(secs as int / 60) + "m "@ + spec_dec_i64(secs as int % 60) + "s"@
        } else {
            spec_dec_i64(secs as int / 3600) + "h "@ + spec_dec_i64((secs as int % 3600) / 60)
                + "m"@
        },
        None => "-"@,
    }
}

/// Render an optional duration in seconds as the original service
/// clients show it.
pub fn duration_display_secs(d: Option<i64>) -> (r: String)
    ensures
        r@ == spec_duration_display(d),
{
    match d {
        Some(secs) => {
            if secs < 60 {
                let mut s = i64_dec_str(secs);
                s.append("s");
                s
            } else if secs < 3600 {
                let mut s = i64_dec_str(secs / 60);
                s.append("m ");
                let t = i64_dec_str(secs % 60);
                s.append(t.as_str());
                s.append("s");
                s
            } else {
                let mut s = i64_dec_str(secs / 3600);
                s.append("h ");
                let t = i64_dec_str((secs % 3600) / 60);
                s.append(t.as_str());
                s.append("m");
                s
            }
        },
        None => {
            let mut s = String::new();
            s.append("-");
            s
        },
    }
}

impl Build {
    /// Get a human-readable status string
    pub fn status_display(&self) -> (r: &'static str)
        ensures
            r@ == spec_status_display(self.status as int),
    {
        if self.status == 0 {
            "running"
        } else if self.status == 1 {
            "success"
        } else if self.status == 2 {
            "failed"
        } else if self.status == 3 {
            "aborted"
        } else if self.status == 4 {
            "aborted-success"
        } else {
            "unknown"
        }
    }

    /// The build's duration in seconds, where both endpoints are known.
    pub fn duration(&self) -> (r: Option<i64>)
        ensures
            r == spec_duration(self.started_on_worker_at, self.finished_at),
    {
        match (self.started_on_worker_at, self.finished_at) {
            (Some(start), Some(end)) => end.checked_sub(start),
            _ => None,
        }
    }

    /// Format duration as human-readable string
    pub fn duration_display(&self) -> (r: String)
        ensures
            r@ == spec_duration_display(
                spec_duration(self.started_on_worker_at, self.finished_at),
            ),
    {
        duration_display_secs(self.duration())
    }

    /// Check if build is still running
    pub fn is_running(&self) -> (r: bool)
        ensures
            r == (self.status == 0),
    {
        self.status == 0
    }

    /// Check if build failed
    pub fn is_failed(&self) -> (r: bool)
        ensures
            r == (self.status == 2),
    {
        self.status == 2
    }
}

/// Build log metadata
pub struct LogResponse {
    pub log_chunks: Vec<LogChunk>,
    pub expiring_raw_log_url: Option<String>,
    pub is_archived: bool,
}

/// Individual log chunk
pub struct LogChunk {
    pub chunk: String,
    pub position: i64,
}

/// Parameters for triggering a build
pub struct TriggerParams {
    pub branch: Option<String>,
    pub workflow_id: String,
    pub commit_message: Option<String>,
    pub environments: Vec<(String, String)>,
}

/// Response from triggering a build
pub struct TriggerResponse {
    pub status: String,
    pub message: String,
    pub slug: Option<String>,
    pub build_slug: Option<String>,
    pub build_number: Option<i64>,
    pub build_url: Option<String>,
    pub triggered_workflow: Option<String>,
}

/// Build artifact
pub struct Artifact {
    pub title: String,
    pub slug: String,
    pub artifact_type: Option<String>,
    pub file_size_bytes: Option<i64>,
    pub is_public_page_enabled: bool,
    pub expiring_download_url: Option<String>,
    pub public_install_page_url: Option<String>,
}

/// Response wrapper for artifact list
pub struct ArtifactListResponse {
    pub data: Vec<Artifact>,
    pub paging: Paging,
}

/// Response wrapper for single artifact
pub struct ArtifactResponse {
    pub data: Artifact,
}

/// `10 * b / den` rounded to the nearest integer, ties to even: the
/// number of tenths shown when `b / den` is printed with one decimal.
pub open spec fn spec_size_tenths(b: int, den: int) -> int {
    let q0 = b / den;
    let r10 = 10 * (b % den);
    let q1 = r10 / den;
    let rr = r10 % den;
    let q = 10 * q0 + q1;
    if 2 * rr > den {
        q + 1
    } else if 2 * rr < den {
        q
    } else if q % 2 == 0 {
        q
    } else {
        q + 1
    }
}

/// A byte count rendered for humans: bytes below 1 KB, otherwise KB or
/// MB with one decimal, and a dash when unknown.
pub open spec fn spec_size_display(bytes: Option<i64>) -> Seq<char> {
    match bytes {
        Some(b) => if b < 1024 {
            spec_dec_i64(b as int) + " B"@
        } else if b < 1024 * 1024 {
            let t = spec_size_tenths(b as int, 1024);
            spec_dec((t / 10) as nat) + "."@ + spec_dec((t % 10) as nat) + " KB"@
        } else {
            let t = spec_size_tenths(b as int, (1024 * 1024) as int);
            spec_dec((t / 10) as nat) + "."@ + spec_dec((t % 10) as nat) + " MB"@
        },
        None => "-"@,
    }
}

/// The tenths count for a positive byte count against a power-of-two
/// divisor, computed in machine integers.
fn size_tenths(b: i64, den: u64) -> (t: u64)
    requires
        b >= 1024,
        den == 1024 || den == 1024 * 1024,
    ensures
        t == spec_size_tenths(b as int, den as int),
{
    let bu: u64 = b as u64;
    let q0: u64 = bu / den;
    let r10: u64 = 10 * (bu % den);
    let q1: u64 = r10 / den;
    let rr: u64 = r10 % den;
    let q: u64 = 10 * q0 + q1;
    if 2 * rr > den {
        q + 1
    } else if 2 * rr < den {
        q
    } else if q % 2 == 0 {
        q
    } else {
        q + 1
    }
}

impl Artifact {
    /// Get human-readable file size
    pub fn size_display(&self) -> (r: String)
        ensures
            r@ == spec_size_display(self.file_size_bytes),
    {
        match self.file_size_bytes {
            Some(bytes) => {
                if bytes < 1024 {
                    let mut s = i64_dec_str(bytes);
                    s.append(" B");
                    s
                } else if bytes < 1024 * 1024 {
                    let t = size_tenths(bytes, 1024);
                    let mut s = u64_dec_str(t / 10);
                    s.append(".");
                    let f = u64_dec_str(t % 10);
                    s.append(f.as_str());
                    s.append(" KB");
                    s
                } else {
                    let t = size_tenths(bytes, 1024 * 1024);
                    let mut s = u64_dec_str(t / 10);
                    s.append(".");
                    let f = u64_dec_str(t % 10);
                    s.append(f.as_str());
                    s.append(" MB");
                    s
                }
            },
            None => {
                let mut s = String::new();
                s.append("-");
                s
            },
        }
    }
}

/// A pipeline: a run of several workflows
pub struct Pipeline {
    pub id: String,
    pub app_slug: String,
    pub status: i32,
    pub status_text: Option<String>,
    pub triggered_at: Option<i64>,
    pub started_at: Option<i64>,
    pub finished_at: Option<i64>,
    pub branch: String,
    /// The pipeline definition name/ID
    pub pipeline_id: String,
    pub triggered_by: Option<String>,
    pub abort_reason: Option<String>,
    pub workflows: Vec<PipelineWorkflow>,
}

impl Pipeline {
    /// Get a human-readable status string
    pub fn status_display(&self) -> (r: &'static str)
        ensures
            r@ == spec_status_display(self.status as int),
    {
        if self.status == 0 {
            "running"
        } else if self.status == 1 {
            "success"
        } else if self.status == 2 {
            "failed"
        } else if self.status == 3 {
            "aborted"
        } else if self.status == 4 {
            "aborted-success"
        } else {
            "unknown"
        }
    }

    /// The pipeline's duration in seconds, where both endpoints are known.
    pub fn duration(&self) -> (r: Option<i64>)
        ensures
            r == spec_duration(self.started_at, self.finished_at),
    {
        match (self.started_at, self.finished_at) {
            (Some(start), Some(end)) => end.checked_sub(start),
            _ => None,
        }
    }

    /// Format duration as human-readable string
    pub fn duration_display(&self) -> (r: String)
        ensures
            r@ == spec_duration_display(spec_duration(self.started_at, self.finished_at)),
    {
        duration_display_secs(self.duration())
    }

    /// Check if pipeline is still running
    pub fn is_running(&self) -> (r: bool)
        ensures
            r == (self.status == 0),
    {
        self.status == 0
    }

    /// Check if pipeline failed
    pub fn is_failed(&self) -> (r: bool)
        ensures
            r == (self.status == 2),
    {
        self.status == 2
    }
}

/// Workflow within a pipeline
pub struct PipelineWorkflow {
    pub id: String,
    pub name: String,
    pub status: i32,
    pub status_text: Option<String>,
}

/// The status label for a workflow inside a pipeline; workflows have no
/// distinct aborted-success state.
pub open spec fn spec_workflow_status_display(status: int) -> Seq<char> {
    if status == 0 {
        "running"@
    } else if status == 1 {
        "success"@
    } else if status == 2 {
        "failed"@
    } else if status == 3 {
        "aborted"@
    } else {
        "unknown"@
    }
}

impl PipelineWorkflow {
    /// Get a human-readable status string
    pub fn status_display(&self) -> (r: &'static str)
        ensures
            r@ == spec_workflow_status_display(self.status as int),
    {
        if self.status == 0 {
            "running"
        } else if self.status == 1 {
            "success"
        } else if self.status == 2 {
            "failed"
        } else if self.status == 3 {
            "aborted"
        } else {
            "unknown"
        }
    }
}

/// Response wrapper for pipeline list
pub struct PipelineListResponse {
    pub data: Vec<Pipeline>,
    pub paging: Paging,
}

/// Response wrapper for single pipeline
pub struct PipelineResponse {
    pub data: Pipeline,
}

impl PipelineResponse {
    /// The pipeline carried in the response.
    pub fn into_pipeline(self) -> (r: Pipeline)
        ensures
            r == self.data,
    {
        self.data
    }
}

/// Parameters for triggering a pipeline
pub struct PipelineTriggerParams {
    pub pipeline_id: String,
    pub branch: Option<String>,
    pub environments: Vec<(String, String)>,
}

/// Response from triggering a pipeline
pub struct PipelineTriggerResponse {
    pub status: String,
    pub message: String,
    pub id: Option<String>,
    pub pipeline_id: Option<String>,
}

/// Current authenticated user
pub struct User {
    pub username: String,
    pub slug: String,
    pub email: Option<String>,
    pub avatar_url: Option<String>,
}

/// Response wrapper for current user
pub struct UserResponse {
    pub data: User,
}

} // verus!

//! The command-line surface as plain data. The surrounding program
//! parses the actual command line and hands these values in; the
//! command logic in this crate consumes them.

use vstd::prelude::*;
use vstd::string::StringExecFns;

use crate::strutil::str_chars;

verus! {

/// Output format options
#[derive(Clone, Copy, Debug, PartialEq, Eq, Structural)]
pub enum OutputFormat {
    /// Colored, human-readable output
    Pretty,
    /// JSON output for scripting
    Json,
}

impl Default for OutputFormat {
    fn default() -> (r: Self)
        ensures
            r == OutputFormat::Pretty,
    {
        OutputFormat::Pretty
    }
}

/// Top-level invocation: global flags and the chosen command.
pub struct Cli {
    /// API token (overrides config file and environment)
    pub token: Option<String>,
    /// Output format
    pub output: OutputFormat,
    /// Quiet mode - suppress non-essential output
    pub quiet: bool,
    /// Verbose mode - show debug information
    pub verbose: bool,
    /// Bypass the local cache and fetch fresh data
    pub no_cache: bool,
    pub command: Commands,
}

/// Available commands
pub enum Commands {
    /// List all accessible apps
    Apps(AppsArgs),
    /// Show or set the default app
    App(AppArgs),
    /// List builds for the default or specified app
    Builds(BuildsArgs),
    /// Show one build, or follow its log
    Build(BuildArgs),
    /// Fetch or follow a build log
    Log(LogArgs),
    /// Trigger a new build
    Trigger(TriggerArgs),
    /// List or download build artifacts
    Artifacts(ArtifactsArgs),
    /// Abort a running build
    Abort(AbortArgs),
    /// Parse and act on a service URL
    Url(UrlArgs),
    /// List pipelines
    Pipelines(PipelinesArgs),
    /// Show, trigger, abort, rebuild or watch a pipeline
    Pipeline(PipelineArgs),
    /// Show or change configuration
    Config(ConfigArgs),
    /// Inspect or clear the local cache
    Cache(CacheArgs),
}

/// Arguments for the apps command
pub struct AppsArgs {
    /// Filter apps by name (case-insensitive partial match)
    pub filter: Option<String>,
    /// Maximum number of apps to return
    pub limit: u32,
}

/// Arguments for the app command
pub struct AppArgs {
    pub command: Option<AppCommands>,
}

/// App subcommands
pub enum AppCommands {
    /// Set the default app for future commands
    SetDefault { app: String },
    /// Show the currently configured default app
    Show,
}

/// Arguments for the builds command
pub struct BuildsArgs {
    pub app: Option<String>,
    pub status: Option<BuildStatusFilter>,
    pub branch: Option<String>,
    pub workflow: Option<String>,
    /// Filter by workflow name (case-insensitive partial match)
    pub workflow_contains: Option<String>,
    pub triggered_by: Option<String>,
    /// Show only builds triggered by the current authenticated user
    pub me: bool,
    /// Show only builds triggered at or after this threshold
    pub since: Option<String>,
    pub limit: u32,
    /// Continuously refresh the list
    pub watch: bool,
    /// Refresh interval in seconds when watching
    pub interval: u64,
}

/// Build status filter options
#[derive(Clone, Copy, Debug, PartialEq, Eq, Structural)]
pub enum BuildStatusFilter {
    Running,
    Success,
    Failed,
    Aborted,
}

/// The remote status code for each filter value.
pub open spec fn spec_filter_api_code(f: BuildStatusFilter) -> i32 {
    match f {
        BuildStatusFilter::Running => 0,
        BuildStatusFilter::Success => 1,
        BuildStatusFilter::Failed => 2,
        BuildStatusFilter::Aborted => 3,
    }
}

impl BuildStatusFilter {
    /// Convert to the remote API status code
    pub fn to_api_code(self) -> (c: i32)
        ensures
            c == spec_filter_api_code(self),
    {
        match self {
            BuildStatusFilter::Running => 0,
            BuildStatusFilter::Success => 1,
            BuildStatusFilter::Failed => 2,
            BuildStatusFilter::Aborted => 3,
        }
    }
}

/// Arguments for the build command
pub struct BuildArgs {
    pub slug: String,
    pub app: Option<String>,
    /// Stream live log output for running builds
    pub follow: bool,
    /// Dump the full build log
    pub logs: bool,
    /// List build artifacts
    pub artifacts: bool,
    /// Polling interval in seconds when following
    pub interval: u64,
    /// Send desktop notification when the build completes
    pub notify: bool,
}

/// Arguments for the log command
pub struct LogArgs {
    pub slug: String,
    pub app: Option<String>,
    /// Show only last N lines of the log
    pub tail: Option<usize>,
    /// Save log to file
    pub save: Option<String>,
    /// Follow log output
    pub follow: bool,
    pub interval: u64,
    pub notify: bool,
}

/// Arguments for the config command
pub struct ConfigArgs {
    pub command: ConfigCommands,
}

/// Config subcommands
pub enum ConfigCommands {
    /// Show current configuration values
    Show,
    /// Set a configuration value
    SetValue { key: String, value: String },
    /// Show the configuration file path
    Path,
    /// Initialize configuration interactively
    Init,
}

/// Arguments for the cache command
pub struct CacheArgs {
    pub command: CacheCommands,
}

/// Cache subcommands
pub enum CacheCommands {
    /// Show cache status and age
    Status,
    /// Clear all cached data
    Clear,
}

/// Arguments for the trigger command
pub struct TriggerArgs {
    /// Workflow name to run
    pub workflow: String,
    pub branch: Option<String>,
    pub app: Option<String>,
    /// Commit message for the build
    pub message: Option<String>,
    /// Environment variables as key/value pairs
    pub env: Vec<(String, String)>,
    /// Wait for the build to complete before returning
    pub wait: bool,
    pub notify: bool,
    pub interval: u64,
}

/// Arguments for the artifacts command
pub struct ArtifactsArgs {
    pub slug: String,
    pub app: Option<String>,
    /// Keep only artifacts whose name matches this glob
    pub filter: Option<String>,
    /// Drop artifacts whose name matches this glob
    pub exclude: Option<String>,
    /// Download artifacts to this directory (current dir when empty)
    pub download: Option<Option<String>>,
}

/// Arguments for the abort command
pub struct AbortArgs {
    pub slug: String,
    pub app: Option<String>,
    /// Reason for aborting
    pub reason: Option<String>,
    /// Skip confirmation prompt
    pub yes: bool,
}

/// Arguments for the url command
pub struct UrlArgs {
    /// A service URL to parse (app, build, or pipeline URL)
    pub url: Option<String>,
    /// Generate a build URL from this slug
    pub gen_build: Option<String>,
    /// Generate an app URL from this slug
    pub gen_app: Option<String>,
    /// Generate a pipeline URL from this pipeline id
    pub gen_pipeline: Option<String>,
    /// The app slug a generated pipeline URL belongs to
    pub app_slug_for_pipeline: Option<String>,
    /// Open the URL in the default browser
    pub browser: bool,
    /// Watch build/pipeline progress until completion
    pub watch: bool,
    pub interval: u64,
    pub notify: bool,
    /// Set this app as the default (only for app URLs)
    pub set_default: bool,
    /// Dump the full build log (only for build URLs)
    pub logs: bool,
    /// Stream live log output (only for build URLs)
    pub follow: bool,
    /// List build artifacts (only for build URLs)
    pub artifacts: bool,
    /// Abort the build (only for build URLs)
    pub abort: bool,
    /// Reason shown when aborting
    pub abort_reason: Option<String>,
    /// Skip confirmation prompt
    pub yes: bool,
    /// Trigger a rebuild with the same parameters (only for build URLs)
    pub retry: bool,
    /// Wait for the rebuild to complete
    pub retry_wait: bool,
    /// Download artifacts to this directory (only for build URLs)
    pub download_dir: Option<String>,
}

/// Arguments for the pipelines command
pub struct PipelinesArgs {
    pub app: Option<String>,
    pub status: Option<BuildStatusFilter>,
    pub branch: Option<String>,
    pub triggered_by: Option<String>,
    pub me: bool,
    /// Show only pipelines triggered at or after this threshold
    pub since: Option<String>,
    pub limit: u32,
}

/// Arguments for the pipeline command
pub struct PipelineArgs {
    pub id: Option<String>,
    pub command: Option<PipelineCommands>,
}

/// Pipeline subcommands
pub enum PipelineCommands {
    /// Show pipeline details and stage status
    Show { id: String, app: Option<String> },
    /// Trigger a new pipeline run
    Trigger {
        name: String,
        branch: Option<String>,
        app: Option<String>,
        env: Vec<(String, String)>,
        wait: bool,
        notify: bool,
        interval: u64,
    },
    /// Abort a running pipeline
    Abort { id: String, app: Option<String>, reason: Option<String>, yes: bool },
    /// Rebuild a pipeline
    Rebuild {
        id: String,
        app: Option<String>,
        partial: bool,
        wait: bool,
        notify: bool,
        interval: u64,
    },
    /// Watch pipeline progress
    Watch { id: String, app: Option<String>, interval: u64, notify: bool },
}

/// Parse one KEY=VALUE environment assignment: the key is everything
/// before the first equals sign, the value everything after it.
pub fn parse_env_var(s: &str) -> (r: Result<(String, String), String>)
    ensures
        match r {
            Ok(kv) => exists|i: int|
                0 <= i < s@.len() && s@[i] == '=' && (forall|j: int|
                    0 <= j < i ==> s@[j] != '=') && kv.0@ == s@.subrange(0, i) && kv.1@
                    == s@.subrange(i + 1, s@.len() as int),
            Err(_) => forall|i: int| 0 <= i < s@.len() ==> s@[i] != '=',
        },
{
    let chars = str_chars(s);
    let mut i: usize = 0;
    while i < chars.len()
        invariant
            i <= chars@.len(),
            chars@ == s@,
            forall|j: int| 0 <= j < i ==> s@[j] != '=',
        decreases chars@.len() - i,
    {
        if chars[i] == '=' {
            let mut key: Vec<char> = Vec::new();
            let mut j: usize = 0;
            while j < i
                invariant
                    j <= i,
                    i < chars@.len(),
                    chars@ == s@,
                    key@ == s@.subrange(0, j as int),
                decreases i - j,
            {
                key.push(chars[j]);
                j = j + 1;
                proof {
                    assert(key@ =~= s@.subrange(0, j as int));
                }
            }
            let mut value: Vec<char> = Vec::new();
            let mut k: usize = i + 1;
            while k < chars.len()
                invariant
                    i + 1 <= k <= chars@.len(),
                    chars@ == s@,
                    value@ == s@.subrange(i + 1, k as int),
                decreases chars@.len() - k,
            {
                value.push(chars[k]);
                k = k + 1;
                proof {
                    assert(value@ =~= s@.subrange(i + 1, k as int));
                }
            }
            let key_s = crate::strutil::chars_to_string(&key);
            let value_s = crate::strutil::chars_to_string(&value);
            return Ok((key_s, value_s));
        }
        i = i + 1;
    }
    let mut msg = String::new();
    msg.append("Invalid format: '");
    msg.append(s);
    msg.append("'. Expected KEY=VALUE");
    Err(msg)
}

} // verus!

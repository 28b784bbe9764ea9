//! Error taxonomy for the client: configuration problems, remote API
//! failures carrying an HTTP status, availability of build logs, and
//! invalid user input. Remote failures with a server-side (5xx) status
//! are the transient class that the retry policy may retry; everything
//! else is permanent.

use vstd::prelude::*;

verus! {

/// Errors produced by the client. Errors that the original collaborators
/// report through their own types (HTTP transport, JSON, TOML, I/O) are
/// carried here as plain message strings.
#[derive(Debug)]
pub enum RepriseError {
    /// Configuration error
    Config(String),
    /// Missing required configuration
    ConfigMissing(String),
    /// API error with HTTP status
    Api { status: u16, message: String },
    /// HTTP request failed
    Http(String),
    /// JSON parsing error
    Json(String),
    /// TOML parsing error
    Toml(String),
    /// TOML serialization error
    TomlSerialize(String),
    /// No default app configured
    NoDefaultApp,
    /// App not found
    AppNotFound(String),
    /// Build not found
    BuildNotFound(String),
    /// Build log not available
    LogNotAvailable(String),
    /// IO error
    Io(String),
    /// Invalid argument
    InvalidArgument(String),
    /// Environment variable error
    Env(String),
}

pub type Result<T> = core::result::Result<T, RepriseError>;

impl RepriseError {
    /// The process exit code for each error class: 78 for configuration
    /// errors, 2 for usage errors, 66 for not-found, 77/66/69 for API
    /// errors by HTTP status, 69 for network, 74 for I/O, 65 for parsing.
    pub open spec fn spec_exit_code(&self) -> i32 {
        match self {
            RepriseError::Config(_) | RepriseError::ConfigMissing(_) | RepriseError::NoDefaultApp => 78,
            RepriseError::InvalidArgument(_) => 2,
            RepriseError::AppNotFound(_) | RepriseError::BuildNotFound(_)
                | RepriseError::LogNotAvailable(_) => 66,
            RepriseError::Api { status, .. } => if status == 401 || status == 403 {
                77
            } else if status == 404 {
                66
            } else {
                69
            },
            RepriseError::Http(_) => 69,
            RepriseError::Io(_) | RepriseError::Env(_) => 74,
            RepriseError::Json(_) | RepriseError::Toml(_) | RepriseError::TomlSerialize(_) => 65,
        }
    }

    /// Create an API error from HTTP status and message
    pub fn api(status: u16, message: String) -> (e: Self)
        ensures
            e == (RepriseError::Api { status, message }),
    {
        RepriseError::Api { status, message }
    }

    /// Create a config missing error with helpful message
    pub fn config_missing(message: String) -> (e: Self)
        ensures
            e == RepriseError::ConfigMissing(message),
    {
        RepriseError::ConfigMissing(message)
    }

    /// Get the appropriate exit code for this error type.
    pub fn exit_code(&self) -> (code: i32)
        ensures
            code == self.spec_exit_code(),
    {
        match self {
            RepriseError::Config(_) | RepriseError::ConfigMissing(_) | RepriseError::NoDefaultApp => 78,
            RepriseError::InvalidArgument(_) => 2,
            RepriseError::AppNotFound(_) | RepriseError::BuildNotFound(_)
                | RepriseError::LogNotAvailable(_) => 66,
            RepriseError::Api { status, .. } => {
                if *status == 401 || *status == 403 {
                    77
                } else if *status == 404 {
                    66
                } else {
                    69
                }
            },
            RepriseError::Http(_) => 69,
            RepriseError::Io(_) | RepriseError::Env(_) => 74,
            RepriseError::Json(_) | RepriseError::Toml(_) | RepriseError::TomlSerialize(_) => 65,
        }
    }
}

} // verus!

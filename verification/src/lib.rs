//! Client-side engine for monitoring remote CI jobs: status polling with
//! transition detection, incremental log tailing, bounded retry with
//! exponential backoff, cooperative cancellation, and one-shot completion
//! notification, together with the data model and the pure command logic
//! that the surrounding command-line program drives.

pub mod apps;
pub mod args;
pub mod artifacts;
pub mod builds;
pub mod common;
pub mod config;
pub mod error;
pub mod monitor;
pub mod notify;
pub mod output;
pub mod pipelines;
pub mod remote;
pub mod retry;
pub mod strutil;
pub mod tail;
pub mod types;
pub mod url_parser;

pub use error::RepriseError;
pub use error::Result;

//! Helpers shared across commands: matching a build's trigger source
//! against the current user, resolving the app to work on, and reading
//! the cooperative interrupt flag.

use std::sync::atomic::{AtomicBool, Ordering};

use vstd::prelude::*;
use vstd::string::StringExecFns;

use crate::config::Config;
use crate::error::Result;
use crate::strutil::{lower_of, spec_contains, str_chars, to_lowercase_str, contains_chars};

verus! {

/// A `triggered_by` value matches the user when its lowercase form
/// holds the lowercase service username (manual triggers), or equals
/// `webhook-github/` followed by the lowercase GitHub username.
pub open spec fn spec_matches_user(
    triggered_by: Seq<char>,
    bitrise_username: Seq<char>,
    github_username: Option<Seq<char>>,
) -> bool {
    spec_contains(lower_of(triggered_by), lower_of(bitrise_username)) || match github_username {
        Some(g) => lower_of(triggered_by) == "webhook-github/"@ + lower_of(g),
        None => false,
    }
}

/// Check if a `triggered_by` value matches the user: a case-insensitive
/// partial match on the service username (manual triggers), or an exact
/// case-insensitive match on `webhook-github/<github-username>`.
pub fn matches_user(
    triggered_by: &str,
    bitrise_username: &str,
    github_username: Option<&str>,
) -> (r: bool)
    ensures
        r == spec_matches_user(
            triggered_by@,
            bitrise_username@,
            match github_username {
                Some(g) => Some(g@),
                None => None,
            },
        ),
{
    let t_lower = to_lowercase_str(triggered_by);
    let b_lower = to_lowercase_str(bitrise_username);
    let t_chars = str_chars(t_lower.as_str());
    let b_chars = str_chars(b_lower.as_str());
    if contains_chars(&t_chars, &b_chars) {
        return true;
    }
    match github_username {
        Some(g) => {
            let mut pattern = String::new();
            pattern.append("webhook-github/");
            let g_lower = to_lowercase_str(g);
            pattern.append(g_lower.as_str());
            t_lower.eq(&pattern)
        },
        None => false,
    }
}

/// Resolve the app slug from a command argument or the configured
/// default: the argument wins; with neither, the no-default-app error.
pub fn resolve_app_slug<'a>(app_arg: Option<&'a str>, config: &'a Config) -> (r: Result<&'a str>)
    ensures
        match app_arg {
            Some(a) => r matches Ok(s) && s@ == a@,
            None => match config.defaults.app_slug {
                Some(d) => r matches Ok(s) && s@ == d@,
                None => r matches Err(crate::error::RepriseError::NoDefaultApp),
            },
        },
{
    match app_arg {
        Some(a) => Ok(a),
        None => config.require_default_app(),
    }
}

/// Check if the interrupt flag has been set. The flag is written by the
/// interrupt handler the surrounding program installs; nothing can be
/// promised about the value read.
pub fn is_interrupted(interrupted: &AtomicBool) -> bool {
    interrupted.load(Ordering::SeqCst)
}

} // verus!

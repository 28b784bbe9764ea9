//! Rules around the remote API that do not themselves touch the
//! network: which hosts log and artifact downloads may be fetched
//! from, and how a log response's content is assembled.

use vstd::prelude::*;
use vstd::string::StringExecFns;

use crate::error::{RepriseError, Result};
use crate::strutil::{
    ends_with_chars, spec_ends_with, spec_starts_with, str_chars, starts_with_chars,
};
use crate::types::{LogChunk, LogResponse};
use crate::url_parser::url_parts_of;

verus! {

/// A host name matches an allow-list entry when it equals it or ends
/// with a dot followed by it.
pub open spec fn spec_host_matches(host: Seq<char>, allowed: Seq<char>) -> bool {
    host == allowed || spec_ends_with(host, seq!['.'] + allowed)
}

/// The hosts external log and artifact URLs may point at: the service
/// itself and its storage buckets.
pub open spec fn spec_host_allowed(host: Seq<char>) -> bool {
    spec_host_matches(host, "bitrise.io"@) || spec_host_matches(host, "app.bitrise.io"@)
        || spec_host_matches(host, "bitrise-build-log-archives.s3.amazonaws.com"@)
        || spec_host_matches(
        host,
        "bitrise-build-log-archives-eu-west-1.s3.eu-west-1.amazonaws.com"@,
    ) || spec_host_matches(host, "bitrise-prod-build-storage.s3.amazonaws.com"@)
        || spec_host_matches(host, "bitrise-prod-build-storage.s3.us-west-2.amazonaws.com"@)
        || spec_host_matches(host, "storage.googleapis.com"@)
}

/// Whether one host matches one allow-list entry.
fn host_matches(host: &Vec<char>, allowed: &str) -> (b: bool)
    ensures
        b == spec_host_matches(host@, allowed@),
{
    let a = str_chars(allowed);
    proof {
        assert(host@.subrange(0, host@.len() as int) =~= host@);
    }
    if host.len() == a.len() && starts_with_chars(host, &a) {
        proof {
            assert(host@ =~= allowed@);
        }
        return true;
    }
    let mut dotted: Vec<char> = Vec::new();
    dotted.push('.');
    let mut i: usize = 0;
    while i < a.len()
        invariant
            i <= a@.len(),
            a@ == allowed@,
            dotted@ == seq!['.'] + allowed@.take(i as int),
        decreases a@.len() - i,
    {
        dotted.push(a[i]);
        i = i + 1;
        proof {
            assert(dotted@ =~= seq!['.'] + allowed@.take(i as int));
        }
    }
    proof {
        assert(dotted@ =~= seq!['.'] + allowed@);
    }
    ends_with_chars(host, &dotted)
}

/// Decide whether a host is on the allow-list for external fetches.
pub fn host_allowed(host: &str) -> (b: bool)
    ensures
        b == spec_host_allowed(host@),
{
    let h = str_chars(host);
    host_matches(&h, "bitrise.io") || host_matches(&h, "app.bitrise.io") || host_matches(
        &h,
        "bitrise-build-log-archives.s3.amazonaws.com",
    ) || host_matches(&h, "bitrise-build-log-archives-eu-west-1.s3.eu-west-1.amazonaws.com")
        || host_matches(&h, "bitrise-prod-build-storage.s3.amazonaws.com") || host_matches(
        &h,
        "bitrise-prod-build-storage.s3.us-west-2.amazonaws.com",
    ) || host_matches(&h, "storage.googleapis.com")
}

/// Validate that a URL may be fetched: it must parse, carry a host,
/// and that host must be on the allow-list. This guards every download
/// whose URL arrived from remote data.
pub fn validate_external_url(url: &str, purpose: &str) -> (r: Result<()>)
    ensures
        match url_parts_of(url@) {
            None => r matches Err(RepriseError::InvalidArgument(_)),
            Some(parts) => {
                &&& (r is Ok <==> spec_host_allowed(parts.0))
                &&& (r is Err ==> r matches Err(RepriseError::InvalidArgument(_)))
            },
        },
{
    match crate::url_parser::parse_url_host(url) {
        Some(host) => {
            if host_allowed(host.as_str()) {
                Ok(())
            } else {
                let mut m = String::new();
                m.append(purpose);
                m.append(" URL from untrusted host: ");
                m.append(host.as_str());
                Err(RepriseError::InvalidArgument(m))
            }
        },
        None => {
            let mut m = String::new();
            m.append("Invalid ");
            m.append(purpose);
            m.append(" URL: ");
            m.append(url);
            Err(RepriseError::InvalidArgument(m))
        },
    }
}

/// The concatenation of a log response's chunks, in order.
pub open spec fn spec_join_chunks(chunks: Seq<LogChunk>) -> Seq<char>
    decreases chunks.len(),
{
    if chunks.len() == 0 {
        Seq::empty()
    } else {
        spec_join_chunks(chunks.drop_last()) + chunks.last().chunk@
    }
}

/// Join a log's chunks into the full text.
pub fn join_chunks(chunks: &Vec<LogChunk>) -> (r: String)
    ensures
        r@ == spec_join_chunks(chunks@),
{
    let mut out = String::new();
    let mut i: usize = 0;
    proof {
        assert(chunks@.take(0) =~= Seq::<LogChunk>::empty());
    }
    while i < chunks.len()
        invariant
            i <= chunks@.len(),
            out@ == spec_join_chunks(chunks@.take(i as int)),
        decreases chunks@.len() - i,
    {
        out.append(chunks[i].chunk.as_str());
        i = i + 1;
        proof {
            assert(chunks@.take(i as int).drop_last() =~= chunks@.take(i - 1));
            assert(chunks@.take(i as int).last() == chunks@[i - 1]);
        }
    }
    proof {
        assert(chunks@.take(chunks@.len() as int) =~= chunks@);
    }
    out
}

/// Where a build log's content comes from.
pub enum LogSource {
    /// Fetch the raw log from this URL (after validating its host).
    RawUrl(String),
    /// The chunks already carried in the response, joined.
    Content(String),
}

/// Decide how to obtain the full log from a log response: use the
/// expiring raw-log URL when the service offers one, else fall back to
/// joining the chunks already in hand.
pub fn log_source(resp: LogResponse) -> (r: LogSource)
    ensures
        match resp.expiring_raw_log_url {
            Some(u) => r matches LogSource::RawUrl(v) && v == u,
            None => r matches LogSource::Content(c) && c@ == spec_join_chunks(
                resp.log_chunks@,
            ),
        },
{
    match resp.expiring_raw_log_url {
        Some(u) => LogSource::RawUrl(u),
        None => LogSource::Content(join_chunks(&resp.log_chunks)),
    }
}

} // verus!

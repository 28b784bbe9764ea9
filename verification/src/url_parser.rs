//! Parsing of service URLs.
//!
//! Three shapes are recognised, all on the `app.bitrise.io` host:
//! an app page (`/app/{slug}`), a build page (`/build/{slug}`), and a
//! pipeline page (`/app/{slug}/pipelines/{id}`). The outside URL
//! parser supplies the host and path segments; the classification of
//! those parts is this module's own, verified logic.

use vstd::prelude::*;
use vstd::string::StringExecFns;

use crate::args::UrlArgs;
use crate::error::{RepriseError, Result};
use crate::strutil::{spec_starts_with, str_chars, starts_with_chars};

verus! {

/// Represents a parsed service URL
#[derive(Debug)]
pub enum BitriseUrl {
    /// An app page
    App { slug: String },
    /// A build page
    Build { slug: String },
    /// A pipeline page
    Pipeline { app_slug: String, pipeline_id: String },
}

impl BitriseUrl {
    /// Get the app slug if available
    pub fn app_slug(&self) -> (r: Option<&str>)
        ensures
            match self {
                BitriseUrl::App { slug } => r matches Some(s) && s@ == slug@,
                BitriseUrl::Pipeline { app_slug, .. } => r matches Some(s) && s@ == app_slug@,
                BitriseUrl::Build { .. } => r is None,
            },
    {
        match self {
            BitriseUrl::App { slug } => Some(slug.as_str()),
            BitriseUrl::Pipeline { app_slug, .. } => Some(app_slug.as_str()),
            BitriseUrl::Build { .. } => None,
        }
    }

    /// Get the build slug if this is a build URL
    pub fn build_slug(&self) -> (r: Option<&str>)
        ensures
            match self {
                BitriseUrl::Build { slug } => r matches Some(s) && s@ == slug@,
                _ => r is None,
            },
    {
        match self {
            BitriseUrl::Build { slug } => Some(slug.as_str()),
            _ => None,
        }
    }

    /// Get the pipeline ID if this is a pipeline URL
    pub fn pipeline_id(&self) -> (r: Option<&str>)
        ensures
            match self {
                BitriseUrl::Pipeline { pipeline_id, .. } => r matches Some(s) && s@
                    == pipeline_id@,
                _ => r is None,
            },
    {
        match self {
            BitriseUrl::Pipeline { pipeline_id, .. } => Some(pipeline_id.as_str()),
            _ => None,
        }
    }

    /// Get a human-readable description of this URL type
    pub fn description(&self) -> (r: &'static str)
        ensures
            match self {
                BitriseUrl::App { .. } => r@ == "app"@,
                BitriseUrl::Build { .. } => r@ == "build"@,
                BitriseUrl::Pipeline { .. } => r@ == "pipeline"@,
            },
    {
        match self {
            BitriseUrl::App { .. } => "app",
            BitriseUrl::Build { .. } => "build",
            BitriseUrl::Pipeline { .. } => "pipeline",
        }
    }

    /// Reconstruct the URL
    pub fn to_url(&self) -> (r: String)
        ensures
            match self {
                BitriseUrl::App { slug } => r@ == "https://app.bitrise.io/app/"@ + slug@,
                BitriseUrl::Build { slug } => r@ == "https://app.bitrise.io/build/"@ + slug@,
                BitriseUrl::Pipeline { app_slug, pipeline_id } => r@
                    == "https://app.bitrise.io/app/"@ + app_slug@ + "/pipelines/"@
                    + pipeline_id@,
            },
    {
        match self {
            BitriseUrl::App { slug } => {
                let mut s = String::new();
                s.append("https://app.bitrise.io/app/");
                s.append(slug.as_str());
                s
            },
            BitriseUrl::Build { slug } => {
                let mut s = String::new();
                s.append("https://app.bitrise.io/build/");
                s.append(slug.as_str());
                s
            },
            BitriseUrl::Pipeline { app_slug, pipeline_id } => {
                let mut s = String::new();
                s.append("https://app.bitrise.io/app/");
                s.append(app_slug.as_str());
                s.append("/pipelines/");
                s.append(pipeline_id.as_str());
                s
            },
        }
    }
}

/// What the outside URL parser finds in a string: the host and the
/// path segments, or nothing when the string is not an absolute URL
/// with a host. A function of the input characters alone.
pub uninterp spec fn url_parts_of(s: Seq<char>) -> Option<(Seq<char>, Seq<Seq<char>>)>;

/// Relies on `url::Url::parse`, `Url::host_str` and
/// `Url::path_segments`: the host and path segments of an absolute
/// URL, `None` when parsing fails or the URL carries no host; a URL
/// without path segments reads as having none.
#[verifier::external_body]
fn parse_url_parts(s: &str) -> (r: Option<(String, Vec<String>)>)
    ensures
        r is Some <==> url_parts_of(s@) is Some,
        r matches Some(p) ==> url_parts_of(s@) == Some((p.0@, p.1.deep_view())),
{
    let u = url::Url::parse(s).ok()?;
    let host = u.host_str().filter(|h| !h.is_empty())?.to_string();
    let segments: Vec<String> = match u.path_segments() {
        Some(iter) => iter.map(str::to_string).collect(),
        None => Vec::new(),
    };
    Some((host, segments))
}

/// The host of an absolute URL, where it has one.
pub fn parse_url_host(s: &str) -> (r: Option<String>)
    ensures
        match url_parts_of(s@) {
            None => r is None,
            Some(parts) => r matches Some(h) && h@ == parts.0,
        },
{
    match parse_url_parts(s) {
        Some((host, _segments)) => Some(host),
        None => None,
    }
}

/// The path segments of an app page: `app` then a nonempty slug.
pub open spec fn is_app_path(segs: Seq<Seq<char>>) -> bool {
    segs.len() == 2 && segs[0] == "app"@ && segs[1].len() > 0
}

/// The path segments of a build page: `build` then a nonempty slug.
pub open spec fn is_build_path(segs: Seq<Seq<char>>) -> bool {
    segs.len() == 2 && segs[0] == "build"@ && segs[1].len() > 0
}

/// The path segments of a pipeline page: `app`, a nonempty app slug,
/// `pipelines`, a nonempty pipeline id.
pub open spec fn is_pipeline_path(segs: Seq<Seq<char>>) -> bool {
    segs.len() == 4 && segs[0] == "app"@ && segs[2] == "pipelines"@ && segs[1].len() > 0
        && segs[3].len() > 0
}

/// How a classification result must relate to the host and path
/// segments it was computed from.
pub open spec fn classify_rel(
    host: Seq<char>,
    segs: Seq<Seq<char>>,
    r: Result<BitriseUrl>,
) -> bool {
    match r {
        Ok(u) => host == "app.bitrise.io"@ && match u {
            BitriseUrl::App { slug } => is_app_path(segs) && slug@ == segs[1],
            BitriseUrl::Build { slug } => is_build_path(segs) && slug@ == segs[1],
            BitriseUrl::Pipeline { app_slug, pipeline_id } => is_pipeline_path(segs)
                && app_slug@ == segs[1] && pipeline_id@ == segs[3],
        },
        Err(e) => {
            &&& (host == "app.bitrise.io"@ ==> !is_app_path(segs) && !is_build_path(segs)
                && !is_pipeline_path(segs))
            &&& match e {
                RepriseError::InvalidArgument(m) => if host != "app.bitrise.io"@ {
                    spec_starts_with(m@, "Not a Bitrise URL"@)
                } else {
                    spec_starts_with(m@, "Unrecognized Bitrise URL pattern"@)
                },
                _ => false,
            }
        },
    }
}

/// Classify a URL already split into host and path segments.
fn classify_url(host: String, segments: Vec<String>, input: &str) -> (r: Result<BitriseUrl>)
    ensures
        classify_rel(host@, segments.deep_view(), r),
{
    let ghost segs = segments.deep_view();
    let mut segments = segments;
    let host_chars = str_chars(host.as_str());
    let expected = str_chars("app.bitrise.io");
    proof {
        reveal_strlit("app.bitrise.io");
    }
    proof {
        assert(host@.subrange(0, host@.len() as int) =~= host@);
    }
    let host_ok = host_chars.len() == expected.len() && starts_with_chars(&host_chars, &expected);
    proof {
        if host_ok {
            assert(host@ =~= "app.bitrise.io"@);
        }
    }
    if !host_ok {
        let mut m = String::new();
        m.append("Not a Bitrise URL (expected app.bitrise.io, got ");
        m.append(host.as_str());
        m.append("): ");
        m.append(input);
        proof {
            reveal_strlit("Not a Bitrise URL (expected app.bitrise.io, got ");
            reveal_strlit("Not a Bitrise URL");
            assert(m@.subrange(0, 17) =~= "Not a Bitrise URL"@);
        }
        return Err(RepriseError::InvalidArgument(m));
    }
    if segments.len() == 2 {
        let kind_is_app = str_eq_lit(&segments[0], "app");
        let kind_is_build = str_eq_lit(&segments[0], "build");
        let slug_nonempty = segments[1].as_str().unicode_len() > 0;
        if kind_is_app && slug_nonempty {
            let slug = segments.pop().unwrap();
            proof {
                assert(slug@ == segs[1]);
            }
            return Ok(BitriseUrl::App { slug });
        }
        if kind_is_build && slug_nonempty {
            let slug = segments.pop().unwrap();
            return Ok(BitriseUrl::Build { slug });
        }
    } else if segments.len() == 4 {
        let shape_ok = str_eq_lit(&segments[0], "app") && str_eq_lit(&segments[2], "pipelines")
            && segments[1].as_str().unicode_len() > 0 && segments[3].as_str().unicode_len() > 0;
        if shape_ok {
            let pipeline_id = segments.pop().unwrap();
            segments.pop();
            let app_slug = segments.pop().unwrap();
            proof {
                assert(app_slug@ == segs[1]);
                assert(pipeline_id@ == segs[3]);
            }
            return Ok(BitriseUrl::Pipeline { app_slug, pipeline_id });
        }
    }
    let mut m = String::new();
    m.append("Unrecognized Bitrise URL pattern: ");
    m.append(input);
    m.append(". Expected /app/{slug}, /build/{slug}, or /app/{slug}/pipelines/{id}");
    proof {
        reveal_strlit("Unrecognized Bitrise URL pattern: ");
        reveal_strlit("Unrecognized Bitrise URL pattern");
        assert(m@.subrange(0, 32) =~= "Unrecognized Bitrise URL pattern"@);
    }
    Err(RepriseError::InvalidArgument(m))
}

/// Whether a string equals a literal, character for character.
fn str_eq_lit(s: &String, lit: &str) -> (b: bool)
    ensures
        b == (s@ == lit@),
{
    let a = str_chars(s.as_str());
    let c = str_chars(lit);
    proof {
        assert(s@.subrange(0, s@.len() as int) =~= s@);
    }
    if a.len() != c.len() {
        return false;
    }
    let r = starts_with_chars(&a, &c);
    proof {
        if r {
            assert(s@ =~= lit@);
        }
    }
    r
}

/// Parse a service URL into its components.
///
/// Accepts `/app/{slug}`, `/build/{slug}` and
/// `/app/{slug}/pipelines/{id}` on the `app.bitrise.io` host. Anything
/// else is an invalid-argument error: an unparsable URL, a foreign
/// host, or an unrecognised path shape, each with its own message.
pub fn parse_bitrise_url(input: &str) -> (r: Result<BitriseUrl>)
    ensures
        match url_parts_of(input@) {
            None => r matches Err(RepriseError::InvalidArgument(m)) && spec_starts_with(
                m@,
                "Invalid URL: "@,
            ),
            Some(parts) => classify_rel(parts.0, parts.1, r),
        },
{
    match parse_url_parts(input) {
        Some((host, segments)) => classify_url(host, segments, input),
        None => {
            let mut m = String::new();
            m.append("Invalid URL: ");
            m.append(input);
            proof {
                reveal_strlit("Invalid URL: ");
                assert(m@.subrange(0, 13) =~= "Invalid URL: "@);
            }
            Err(RepriseError::InvalidArgument(m))
        },
    }
}

/// Check if the URL arguments are in generation mode: one of the
/// generate flags is present.
pub fn is_generation_mode(args: &UrlArgs) -> (b: bool)
    ensures
        b == (args.gen_build is Some || args.gen_app is Some || args.gen_pipeline is Some),
{
    args.gen_build.is_some() || args.gen_app.is_some() || args.gen_pipeline.is_some()
}

/// Build the URL value the generation flags describe: a build URL, an
/// app URL, or a pipeline URL — which also needs the owning app's
/// slug. Without any generation flag there is nothing to generate.
pub fn url_generate(args: &UrlArgs) -> (r: Result<BitriseUrl>)
    ensures
        match args.gen_build {
            Some(s) => r matches Ok(BitriseUrl::Build { slug }) && slug@ == s@,
            None => match args.gen_app {
                Some(s) => r matches Ok(BitriseUrl::App { slug }) && slug@ == s@,
                None => match args.gen_pipeline {
                    Some(pid) => match args.app_slug_for_pipeline {
                        Some(a) => r matches Ok(BitriseUrl::Pipeline { app_slug, pipeline_id })
                            && app_slug@ == a@ && pipeline_id@ == pid@,
                        None => r matches Err(RepriseError::InvalidArgument(_)),
                    },
                    None => r matches Err(RepriseError::InvalidArgument(_)),
                },
            },
        },
{
    match &args.gen_build {
        Some(s) => {
            return Ok(BitriseUrl::Build { slug: s.clone() });
        },
        None => {},
    }
    match &args.gen_app {
        Some(s) => {
            return Ok(BitriseUrl::App { slug: s.clone() });
        },
        None => {},
    }
    match &args.gen_pipeline {
        Some(pid) => match &args.app_slug_for_pipeline {
            Some(a) => Ok(
                BitriseUrl::Pipeline { app_slug: a.clone(), pipeline_id: pid.clone() },
            ),
            None => {
                let mut m = String::new();
                m.append("--app-slug is required when generating pipeline URLs");
                Err(RepriseError::InvalidArgument(m))
            },
        },
        None => {
            let mut m = String::new();
            m.append("url_generate called without generation flags");
            Err(RepriseError::InvalidArgument(m))
        },
    }
}

/// Which action flags each URL kind accepts: build-page actions only
/// on build URLs, setting the default app only on app URLs.
pub open spec fn spec_flags_allowed(parsed: &BitriseUrl, args: &UrlArgs) -> bool {
    match parsed {
        BitriseUrl::Build { .. } => !args.set_default,
        BitriseUrl::App { .. } => !args.logs && !args.follow && !args.artifacts && !args.abort
            && !args.retry && args.download_dir is None,
        BitriseUrl::Pipeline { .. } => !args.set_default && !args.logs && !args.follow
            && !args.artifacts && !args.abort && !args.retry && args.download_dir is None,
    }
}

/// Validate that the action flags fit the URL's kind.
pub fn validate_flags_for_url_type(parsed: &BitriseUrl, args: &UrlArgs) -> (r: Result<()>)
    ensures
        r is Ok <==> spec_flags_allowed(parsed, args),
        !spec_flags_allowed(parsed, args) ==> r matches Err(
            RepriseError::InvalidArgument(_),
        ),
{
    match parsed {
        BitriseUrl::Build { .. } => {
            if args.set_default {
                let mut m = String::new();
                m.append("--set-default is only valid for app URLs");
                return Err(RepriseError::InvalidArgument(m));
            }
            Ok(())
        },
        BitriseUrl::App { .. } => {
            if args.logs {
                let mut m = String::new();
                m.append("--logs is only valid for build URLs");
                return Err(RepriseError::InvalidArgument(m));
            }
            if args.follow {
                let mut m = String::new();
                m.append("--follow is only valid for build URLs");
                return Err(RepriseError::InvalidArgument(m));
            }
            if args.artifacts {
                let mut m = String::new();
                m.append("--artifacts is only valid for build URLs");
                return Err(RepriseError::InvalidArgument(m));
            }
            if args.abort {
                let mut m = String::new();
                m.append("--abort is only valid for build URLs");
                return Err(RepriseError::InvalidArgument(m));
            }
            if args.retry {
                let mut m = String::new();
                m.append("--retry is only valid for build URLs");
                return Err(RepriseError::InvalidArgument(m));
            }
            if args.download_dir.is_some() {
                let mut m = String::new();
                m.append("--download is only valid for build URLs");
                return Err(RepriseError::InvalidArgument(m));
            }
            Ok(())
        },
        BitriseUrl::Pipeline { .. } => {
            if args.set_default {
                let mut m = String::new();
                m.append("--set-default is only valid for app URLs");
                return Err(RepriseError::InvalidArgument(m));
            }
            if args.logs {
                let mut m = String::new();
                m.append("--logs is only valid for build URLs (pipelines contain multiple workflows)");
                return Err(RepriseError::InvalidArgument(m));
            }
            if args.follow {
                let mut m = String::new();
                m.append("--follow is only valid for build URLs (pipelines contain multiple workflows)");
                return Err(RepriseError::InvalidArgument(m));
            }
            if args.artifacts {
                let mut m = String::new();
                m.append("--artifacts is only valid for build URLs (pipelines contain multiple workflows)");
                return Err(RepriseError::InvalidArgument(m));
            }
            if args.abort {
                let mut m = String::new();
                m.append("--abort is only valid for build URLs (use pipeline abort command for pipelines)");
                return Err(RepriseError::InvalidArgument(m));
            }
            if args.retry {
                let mut m = String::new();
                m.append("--retry is only valid for build URLs (use pipeline rebuild command for pipelines)");
                return Err(RepriseError::InvalidArgument(m));
            }
            if args.download_dir.is_some() {
                let mut m = String::new();
                m.append("--download is only valid for build URLs (pipelines contain multiple workflows)");
                return Err(RepriseError::InvalidArgument(m));
            }
            Ok(())
        },
    }
}

} // verus!

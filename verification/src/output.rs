//! Plain-text rendering of apps, builds, pipelines and artifacts, and
//! the classification that drives log-line highlighting. Colorization
//! is presentation and belongs to the surrounding program; every
//! formatter here promises which fields of its input appear in its
//! output. Timestamps are shown as seconds since the Unix epoch.

use vstd::prelude::*;
use vstd::string::StringExecFns;

use crate::strutil::{
    concat_all, chars_to_string, contains_chars, i64_dec_str, lower_of, spec_contains, spec_dec,
    spec_dec_i64, str_chars, to_lowercase_str, u64_dec_str,
};
use crate::types::{
    spec_duration, spec_duration_display, spec_size_display, spec_status_display, App, Artifact,
    Build, Pipeline,
};

verus! {

/// Safely truncate a string to `max_chars` characters, appending `...`
/// if truncated. Works correctly with multi-byte characters.
pub fn truncate_str(s: &str, max_chars: usize) -> (r: String)
    ensures
        s@.len() <= max_chars ==> r@ == s@,
        s@.len() > max_chars ==> r@ == s@.take(
            (if max_chars >= 3 {
                max_chars - 3
            } else {
                0
            }) as int,
        ) + "..."@,
{
    let chars = str_chars(s);
    if chars.len() > max_chars {
        let keep: usize = if max_chars >= 3 {
            max_chars - 3
        } else {
            0
        };
        let mut kept: Vec<char> = Vec::new();
        let mut i: usize = 0;
        while i < keep
            invariant
                i <= keep,
                keep <= chars@.len(),
                chars@ == s@,
                kept@ == s@.take(i as int),
            decreases keep - i,
        {
            kept.push(chars[i]);
            i = i + 1;
            proof {
                assert(kept@ =~= s@.take(i as int));
            }
        }
        let mut r = chars_to_string(&kept);
        r.append("...");
        r
    } else {
        String::from_str(s)
    }
}

/// Safely get the first `n` characters of a string.
pub fn first_n_chars(s: &str, n: usize) -> (r: String)
    ensures
        r@ == s@.take(
            (if n <= s@.len() {
                n as int
            } else {
                s@.len() as int
            }),
        ),
{
    let chars = str_chars(s);
    let keep: usize = if n <= chars.len() {
        n
    } else {
        chars.len()
    };
    let mut kept: Vec<char> = Vec::new();
    let mut i: usize = 0;
    while i < keep
        invariant
            i <= keep,
            keep <= chars@.len(),
            chars@ == s@,
            kept@ == s@.take(i as int),
        decreases keep - i,
    {
        kept.push(chars[i]);
        i = i + 1;
        proof {
            assert(kept@ =~= s@.take(i as int));
        }
    }
    chars_to_string(&kept)
}

/// An age in seconds rendered like a duration: seconds, then minutes
/// and seconds, then hours and minutes.
pub open spec fn spec_format_age(secs: int) -> Seq<char> {
    if secs < 60 {
        spec_dec_i64(secs) + "s"@
    } else if secs < 3600 {
        spec_dec_i64(secs / 60) + "m "@ + spec_dec_i64(secs % 60) + "s"@
    } else {
        spec_dec_i64(secs / 3600) + "h "@ + spec_dec_i64((secs % 3600) / 60) + "m"@
    }
}

/// Format age in human-readable form
pub fn format_age(secs: u64) -> (r: String)
    ensures
        r@ == spec_format_age(secs as int),
{
    if secs < 60 {
        let mut s = u64_dec_str(secs);
        s.append("s");
        s
    } else if secs < 3600 {
        let mut s = u64_dec_str(secs / 60);
        s.append("m ");
        let t = u64_dec_str(secs % 60);
        s.append(t.as_str());
        s.append("s");
        s
    } else {
        let mut s = u64_dec_str(secs / 3600);
        s.append("h ");
        let t = u64_dec_str((secs % 3600) / 60);
        s.append(t.as_str());
        s.append("m");
        s
    }
}

/// How one log line should be highlighted.
#[derive(Clone, Copy, Debug, PartialEq, Eq, Structural)]
pub enum LogLineKind {
    /// Error patterns: shown in red.
    Error,
    /// Warning patterns: shown in yellow.
    Warning,
    /// Success patterns: shown in green.
    Success,
    /// Anything else: shown as it is.
    Normal,
}

/// A line reads as an error when its lowercase form holds an error
/// word, or it starts with an error marker.
pub open spec fn spec_is_error_line(line: Seq<char>) -> bool {
    let lower = lower_of(line);
    spec_contains(lower, "error"@) || spec_contains(lower, "failed"@) || spec_contains(
        lower,
        "failure"@,
    ) || spec_contains(lower, "fatal"@) || spec_contains(lower, "exception"@) || spec_contains(
        lower,
        "panic"@,
    ) || crate::strutil::spec_starts_with(line, "E "@) || spec_contains(line, "[ERROR]"@)
        || spec_contains(line, "[error]"@)
}

/// A line reads as a warning when its lowercase form holds a warning
/// word, or it starts with a warning marker.
pub open spec fn spec_is_warning_line(line: Seq<char>) -> bool {
    let lower = lower_of(line);
    spec_contains(lower, "warning"@) || spec_contains(lower, "warn"@)
        || crate::strutil::spec_starts_with(line, "W "@) || spec_contains(line, "[WARN]"@)
        || spec_contains(line, "[warn]"@)
}

/// A line reads as a success when its lowercase form holds a success
/// word or a success marker.
pub open spec fn spec_is_success_line(line: Seq<char>) -> bool {
    let lower = lower_of(line);
    spec_contains(lower, "success"@) || spec_contains(lower, "passed"@) || spec_contains(
        lower,
        "completed"@,
    ) || spec_contains(line, "[OK]"@) || spec_contains(line, "BUILD SUCCESSFUL"@)
}

/// Whether `hay` holds `lit` as a substring.
fn contains_lit(hay: &Vec<char>, lit: &str) -> (b: bool)
    ensures
        b == spec_contains(hay@, lit@),
{
    let l = str_chars(lit);
    contains_chars(hay, &l)
}

/// Classify one log line for highlighting: error patterns first, then
/// warnings, then successes, else plain. The surrounding program
/// applies the colors.
pub fn line_category(line: &str) -> (k: LogLineKind)
    ensures
        k == LogLineKind::Error <==> spec_is_error_line(line@),
        !spec_is_error_line(line@) ==> (k == LogLineKind::Warning <==> spec_is_warning_line(
            line@,
        )),
        !spec_is_error_line(line@) && !spec_is_warning_line(line@) ==> (k == LogLineKind::Success
            <==> spec_is_success_line(line@)),
{
    let lower = to_lowercase_str(line);
    let lower_chars = str_chars(lower.as_str());
    let line_chars = str_chars(line);
    let e_marker = str_chars("E ");
    let w_marker = str_chars("W ");
    if contains_lit(&lower_chars, "error") || contains_lit(&lower_chars, "failed")
        || contains_lit(&lower_chars, "failure") || contains_lit(&lower_chars, "fatal")
        || contains_lit(&lower_chars, "exception") || contains_lit(&lower_chars, "panic")
        || crate::strutil::starts_with_chars(&line_chars, &e_marker) || contains_lit(
        &line_chars,
        "[ERROR]",
    ) || contains_lit(&line_chars, "[error]") {
        return LogLineKind::Error;
    }
    if contains_lit(&lower_chars, "warning") || contains_lit(&lower_chars, "warn")
        || crate::strutil::starts_with_chars(&line_chars, &w_marker) || contains_lit(
        &line_chars,
        "[WARN]",
    ) || contains_lit(&line_chars, "[warn]") {
        return LogLineKind::Warning;
    }
    if contains_lit(&lower_chars, "success") || contains_lit(&lower_chars, "passed")
        || contains_lit(&lower_chars, "completed") || contains_lit(&line_chars, "[OK]")
        || contains_lit(&line_chars, "BUILD SUCCESSFUL") {
        return LogLineKind::Success;
    }
    LogLineKind::Normal
}

/// The first line of a message, cut to sixty characters: the preview
/// shown beside a build.
pub fn first_line_preview(msg: &str) -> (r: String)
    ensures
        ({
            let lines = crate::strutil::spec_lines(msg@);
            let first = if lines.len() > 0 {
                lines[0]
            } else {
                Seq::<char>::empty()
            };
            r@ == first.take(
                (if first.len() <= 60 {
                    first.len() as int
                } else {
                    60int
                }),
            )
        }),
{
    let lines = crate::strutil::split_lines(msg);
    if lines.len() > 0 {
        let r = first_n_chars(lines[0].as_str(), 60);
        proof {
            assert(lines@[0]@ == crate::strutil::spec_lines(msg@)[0]);
        }
        r
    } else {
        proof {
            assert(Seq::<char>::empty().take(0) =~= Seq::<char>::empty());
        }
        String::new()
    }
}

/// A horizontal rule of `n` box-drawing dashes.
fn separator(n: usize) -> (r: String)
    ensures
        r@.len() == n,
{
    let mut v: Vec<char> = Vec::new();
    let mut i: usize = 0;
    while i < n
        invariant
            i <= n,
            v@.len() == i,
        decreases n - i,
    {
        v.push('\u{2500}');
        i = i + 1;
    }
    chars_to_string(&v)
}

/// Format a single app for pretty output: title, status, slug, owner,
/// type, provider, repository, visibility, and the app's page URL.
pub fn format_app(app: &App) -> (r: String)
    ensures
        spec_contains(r@, app.title@),
        spec_contains(r@, app.slug@),
        spec_contains(r@, app.owner.name@),
        spec_contains(r@, app.owner.account_type@),
        app.is_public ==> spec_contains(r@, "public"@),
        !app.is_public ==> spec_contains(r@, "private"@),
        spec_contains(r@, "https://app.bitrise.io/app/"@ + app.slug@),
{
    let mut parts: Vec<String> = Vec::new();
    let ghost title_idx = parts@.len() as int;
    parts.push(app.title.clone());
    if app.is_disabled {
        parts.push(String::from_str(" [disabled]\n"));
    } else {
        parts.push(String::from_str(" [active]\n"));
    }
    parts.push(separator(50));
    parts.push(String::from_str("\nSlug: "));
    let ghost slug_idx = parts@.len() as int;
    parts.push(app.slug.clone());
    parts.push(String::from_str("\nOwner: "));
    let ghost owner_idx = parts@.len() as int;
    parts.push(app.owner.name.clone());
    parts.push(String::from_str(" ("));
    let ghost acct_idx = parts@.len() as int;
    parts.push(app.owner.account_type.clone());
    parts.push(String::from_str(")\n"));
    match &app.project_type {
        Some(t) => {
            parts.push(String::from_str("Type: "));
            parts.push(t.clone());
            parts.push(String::from_str("\n"));
        },
        None => {},
    }
    match &app.provider {
        Some(p) => {
            parts.push(String::from_str("Provider: "));
            parts.push(p.clone());
            parts.push(String::from_str("\n"));
        },
        None => {},
    }
    match &app.repo_url {
        Some(u) => {
            parts.push(String::from_str("Repo: "));
            parts.push(u.clone());
            parts.push(String::from_str("\n"));
        },
        None => {},
    }
    let ghost vis_idx = parts@.len() as int;
    if app.is_public {
        parts.push(String::from_str("Visibility: public\n"));
    } else {
        parts.push(String::from_str("Visibility: private\n"));
    }
    let mut url_line = String::new();
    url_line.append("\nURL: ");
    url_line.append("https://app.bitrise.io/app/");
    url_line.append(app.slug.as_str());
    url_line.append("\n");
    let ghost url_idx = parts@.len() as int;
    parts.push(url_line);
    let r = concat_all(&parts);
    proof {
        assert(spec_contains(r@, parts@[title_idx]@));
        assert(spec_contains(r@, parts@[slug_idx]@));
        assert(spec_contains(r@, parts@[owner_idx]@));
        assert(spec_contains(r@, parts@[acct_idx]@));
        assert(spec_contains(r@, parts@[vis_idx]@));
        if app.is_public {
            reveal_strlit("Visibility: public\n");
            reveal_strlit("public");
            assert(parts@[vis_idx]@.subrange(12, 18) =~= "public"@);
            assert(crate::strutil::contains_at(parts@[vis_idx]@, 12, "public"@));
            assert(spec_contains(parts@[vis_idx]@, "public"@));
            crate::strutil::lemma_contains_trans(r@, parts@[vis_idx]@, "public"@);
        } else {
            reveal_strlit("Visibility: private\n");
            reveal_strlit("private");
            assert(parts@[vis_idx]@.subrange(12, 19) =~= "private"@);
            assert(crate::strutil::contains_at(parts@[vis_idx]@, 12, "private"@));
            assert(spec_contains(parts@[vis_idx]@, "private"@));
            crate::strutil::lemma_contains_trans(r@, parts@[vis_idx]@, "private"@);
        }
        assert(spec_contains(r@, parts@[url_idx]@));
        reveal_strlit("\nURL: ");
        reveal_strlit("https://app.bitrise.io/app/");
        assert("\nURL: "@.len() == 6);
        assert(parts@[url_idx]@.subrange(
            6,
            6 + "https://app.bitrise.io/app/"@.len() as int + app.slug@.len() as int,
        ) =~= "https://app.bitrise.io/app/"@ + app.slug@);
        assert(crate::strutil::contains_at(
            parts@[url_idx]@,
            6,
            "https://app.bitrise.io/app/"@ + app.slug@,
        ));
        assert(spec_contains(parts@[url_idx]@, "https://app.bitrise.io/app/"@ + app.slug@));
        crate::strutil::lemma_contains_trans(
            r@,
            parts@[url_idx]@,
            "https://app.bitrise.io/app/"@ + app.slug@,
        );
    }
    r
}

/// Format a list of apps for pretty output; every app's title, slug
/// and owner name appear.
pub fn format_apps(apps: &Vec<App>) -> (r: String)
    ensures
        apps@.len() == 0 ==> r@ == "No apps found."@,
        forall|i: int|
            0 <= i < apps@.len() ==> spec_contains(r@, (#[trigger] apps@[i]).title@)
                && spec_contains(r@, apps@[i].slug@) && spec_contains(r@, apps@[i].owner.name@),
{
    if apps.len() == 0 {
        return String::from_str("No apps found.");
    }
    let mut out = String::new();
    out.append("Apps\n");
    let sep = separator(70);
    out.append(sep.as_str());
    out.append("\n");
    let mut i: usize = 0;
    while i < apps.len()
        invariant
            i <= apps@.len(),
            forall|j: int|
                0 <= j < i ==> spec_contains(out@, (#[trigger] apps@[j]).title@)
                    && spec_contains(out@, apps@[j].slug@) && spec_contains(
                    out@,
                    apps@[j].owner.name@,
                ),
        decreases apps@.len() - i,
    {
        let app = &apps[i];
        let mut parts: Vec<String> = Vec::new();
        let ghost title_idx = parts@.len() as int;
        parts.push(app.title.clone());
        if app.is_disabled {
            parts.push(String::from_str(" [disabled]\n"));
        } else {
            parts.push(String::from_str(" [active]\n"));
        }
        parts.push(String::from_str("  Slug: "));
        let ghost slug_idx = parts@.len() as int;
        parts.push(app.slug.clone());
        parts.push(String::from_str("\n  Owner: "));
        let ghost owner_idx = parts@.len() as int;
        parts.push(app.owner.name.clone());
        parts.push(String::from_str("\n"));
        match &app.project_type {
            Some(t) => {
                parts.push(String::from_str("  Type: "));
                parts.push(t.clone());
                parts.push(String::from_str("\n"));
            },
            None => {},
        }
        match &app.repo_url {
            Some(u) => {
                parts.push(String::from_str("  Repo: "));
                parts.push(u.clone());
                parts.push(String::from_str("\n"));
            },
            None => {},
        }
        parts.push(String::from_str("\n"));
        let block = concat_all(&parts);
        proof {
            assert(spec_contains(block@, parts@[title_idx]@));
            assert(spec_contains(block@, parts@[slug_idx]@));
            assert(spec_contains(block@, parts@[owner_idx]@));
        }
        let ghost before = out@;
        out.append(block.as_str());
        proof {
            crate::strutil::lemma_contains_infix(before, block@, Seq::empty());
            assert(before + block@ + Seq::<char>::empty() =~= out@);
            crate::strutil::lemma_contains_trans(out@, block@, app.title@);
            crate::strutil::lemma_contains_trans(out@, block@, app.slug@);
            crate::strutil::lemma_contains_trans(out@, block@, app.owner.name@);
            assert forall|j: int| 0 <= j < i implies spec_contains(
                out@,
                (#[trigger] apps@[j]).title@,
            ) && spec_contains(out@, apps@[j].slug@) && spec_contains(
                out@,
                apps@[j].owner.name@,
            ) by {
                crate::strutil::lemma_contains_extend(before, block@, apps@[j].title@);
                crate::strutil::lemma_contains_extend(before, block@, apps@[j].slug@);
                crate::strutil::lemma_contains_extend(before, block@, apps@[j].owner.name@);
            }
        }
        i = i + 1;
    }
    out
}

/// Format a list of artifacts for pretty output, with a count in the
/// header; every artifact's title, slug and size appear, and public
/// artifacts show their install page URL.
pub fn format_artifacts(artifacts: &Vec<Artifact>) -> (r: String)
    ensures
        artifacts@.len() == 0 ==> r@ == "No artifacts found."@,
        artifacts@.len() == 1 ==> spec_contains(r@, spec_dec(1) + " artifact)"@),
        artifacts@.len() > 1 ==> spec_contains(
            r@,
            spec_dec(artifacts@.len()) + " artifacts)"@,
        ),
        forall|i: int|
            0 <= i < artifacts@.len() ==> spec_contains(r@, (#[trigger] artifacts@[i]).title@)
                && spec_contains(r@, artifacts@[i].slug@) && spec_contains(
                r@,
                spec_size_display(artifacts@[i].file_size_bytes),
            ),
{
    if artifacts.len() == 0 {
        return String::from_str("No artifacts found.");
    }
    let mut header = String::new();
    header.append("Build Artifacts (");
    let count = u64_dec_str(artifacts.len() as u64);
    header.append(count.as_str());
    if artifacts.len() == 1 {
        header.append(" artifact)");
    } else {
        header.append(" artifacts)");
    }
    let ghost header_tail = count@ + (if artifacts@.len() == 1 {
        " artifact)"@
    } else {
        " artifacts)"@
    });
    proof {
        reveal_strlit("Build Artifacts (");
        assert("Build Artifacts ("@.len() == 17);
        assert(header@.subrange(17, header@.len() as int) =~= header_tail);
    }
    let mut out = header;
    out.append("\n");
    let sep = separator(60);
    out.append(sep.as_str());
    out.append("\n\n");
    proof {
        assert(crate::strutil::contains_at(out@, 17, header_tail)) by {
            reveal_strlit("Build Artifacts (");
            assert("Build Artifacts ("@.len() == 17);
            assert(out@.subrange(17, 17 + header_tail.len() as int) =~= header_tail);
        }
        assert(spec_contains(out@, header_tail));
    }
    let mut i: usize = 0;
    while i < artifacts.len()
        invariant
            i <= artifacts@.len(),
            spec_contains(
                out@,
                spec_dec(artifacts@.len()) + (if artifacts@.len() == 1 {
                    " artifact)"@
                } else {
                    " artifacts)"@
                }),
            ),
            forall|j: int|
                0 <= j < i ==> spec_contains(out@, (#[trigger] artifacts@[j]).title@)
                    && spec_contains(out@, artifacts@[j].slug@) && spec_contains(
                    out@,
                    spec_size_display(artifacts@[j].file_size_bytes),
                ),
        decreases artifacts@.len() - i,
    {
        let a = &artifacts[i];
        let mut parts: Vec<String> = Vec::new();
        parts.push(String::from_str("  \u{2022} "));
        let ghost title_idx = parts@.len() as int;
        parts.push(a.title.clone());
        parts.push(String::from_str("\n    Slug: "));
        let ghost slug_idx = parts@.len() as int;
        parts.push(a.slug.clone());
        parts.push(String::from_str("\n    Size: "));
        let ghost size_idx = parts@.len() as int;
        parts.push(a.size_display());
        parts.push(String::from_str("\n"));
        match &a.artifact_type {
            Some(t) => {
                parts.push(String::from_str("    Type: "));
                parts.push(t.clone());
                parts.push(String::from_str("\n"));
            },
            None => {},
        }
        if a.is_public_page_enabled {
            parts.push(String::from_str("    Public: yes\n"));
            match &a.public_install_page_url {
                Some(u) => {
                    parts.push(String::from_str("    Install URL: "));
                    parts.push(u.clone());
                    parts.push(String::from_str("\n"));
                },
                None => {},
            }
        }
        parts.push(String::from_str("\n"));
        let block = concat_all(&parts);
        proof {
            assert(spec_contains(block@, parts@[title_idx]@));
            assert(spec_contains(block@, parts@[slug_idx]@));
            assert(spec_contains(block@, parts@[size_idx]@));
        }
        let ghost before = out@;
        out.append(block.as_str());
        proof {
            crate::strutil::lemma_contains_infix(before, block@, Seq::empty());
            assert(before + block@ + Seq::<char>::empty() =~= out@);
            crate::strutil::lemma_contains_trans(out@, block@, a.title@);
            crate::strutil::lemma_contains_trans(out@, block@, a.slug@);
            crate::strutil::lemma_contains_trans(
                out@,
                block@,
                spec_size_display(a.file_size_bytes),
            );
            crate::strutil::lemma_contains_extend(
                before,
                block@,
                spec_dec(artifacts@.len()) + (if artifacts@.len() == 1 {
                    " artifact)"@
                } else {
                    " artifacts)"@
                }),
            );
            assert forall|j: int| 0 <= j < i implies spec_contains(
                out@,
                (#[trigger] artifacts@[j]).title@,
            ) && spec_contains(out@, artifacts@[j].slug@) && spec_contains(
                out@,
                spec_size_display(artifacts@[j].file_size_bytes),
            ) by {
                crate::strutil::lemma_contains_extend(before, block@, artifacts@[j].title@);
                crate::strutil::lemma_contains_extend(before, block@, artifacts@[j].slug@);
                crate::strutil::lemma_contains_extend(
                    before,
                    block@,
                    spec_size_display(artifacts@[j].file_size_bytes),
                );
            }
        }
        i = i + 1;
    }
    out
}

/// Format a single build for pretty output: number, status, slug,
/// branch, workflow and duration all appear, as does the build's page
/// URL.
#[verifier::rlimit(80)]
pub fn format_build(build: &Build) -> (r: String)
    ensures
        spec_contains(r@, spec_dec_i64(build.build_number as int)),
        spec_contains(r@, spec_status_display(build.status as int)),
        spec_contains(r@, build.slug@),
        spec_contains(r@, build.branch@),
        spec_contains(r@, build.triggered_workflow@),
        spec_contains(
            r@,
            spec_duration_display(
                spec_duration(build.started_on_worker_at, build.finished_at),
            ),
        ),
{
    let mut parts: Vec<String> = Vec::new();
    parts.push(String::from_str("Build #"));
    let ghost num_idx = parts@.len() as int;
    parts.push(i64_dec_str(build.build_number));
    parts.push(String::from_str(" "));
    let ghost status_idx = parts@.len() as int;
    parts.push(String::from_str(build.status_display()));
    parts.push(String::from_str("\n"));
    parts.push(separator(60));
    parts.push(String::from_str("\nSlug: "));
    let ghost slug_idx = parts@.len() as int;
    parts.push(build.slug.clone());
    parts.push(String::from_str("\nBranch: "));
    let ghost branch_idx = parts@.len() as int;
    parts.push(build.branch.clone());
    parts.push(String::from_str("\nWorkflow: "));
    let ghost wf_idx = parts@.len() as int;
    parts.push(build.triggered_workflow.clone());
    parts.push(String::from_str("\nDuration: "));
    let ghost dur_idx = parts@.len() as int;
    parts.push(build.duration_display());
    parts.push(String::from_str("\n"));
    match &build.tag {
        Some(tag) => {
            parts.push(String::from_str("Tag: "));
            parts.push(tag.clone());
            parts.push(String::from_str("\n"));
        },
        None => {},
    }
    match &build.commit_hash {
        Some(commit) => {
            parts.push(String::from_str("Commit: "));
            parts.push(first_n_chars(commit.as_str(), 7));
            parts.push(String::from_str("\n"));
        },
        None => {},
    }
    match &build.commit_message {
        Some(msg) => {
            parts.push(String::from_str("Message: "));
            parts.push(first_line_preview(msg.as_str()));
            parts.push(String::from_str("\n"));
        },
        None => {},
    }
    match build.pull_request_id {
        Some(pr) => {
            parts.push(String::from_str("PR: #"));
            parts.push(i64_dec_str(pr));
            match &build.pull_request_target_branch {
                Some(target) => {
                    parts.push(String::from_str(" -> "));
                    parts.push(target.clone());
                },
                None => {},
            }
            parts.push(String::from_str("\n"));
        },
        None => {},
    }
    parts.push(String::from_str("Triggered: "));
    parts.push(i64_dec_str(build.triggered_at));
    parts.push(String::from_str("\n"));
    match &build.stack_identifier {
        Some(stack) => {
            parts.push(String::from_str("Stack: "));
            parts.push(stack.clone());
            parts.push(String::from_str("\n"));
        },
        None => {},
    }
    match &build.machine_type_id {
        Some(machine) => {
            parts.push(String::from_str("Machine: "));
            parts.push(machine.clone());
            parts.push(String::from_str("\n"));
        },
        None => {},
    }
    match build.credit_cost {
        Some(cost) => {
            parts.push(String::from_str("Credits: "));
            parts.push(i64_dec_str(cost as i64));
            parts.push(String::from_str("\n"));
        },
        None => {},
    }
    match &build.abort_reason {
        Some(reason) => {
            parts.push(String::from_str("Reason: "));
            parts.push(reason.clone());
            parts.push(String::from_str("\n"));
        },
        None => {},
    }
    match &build.triggered_by {
        Some(by) => {
            parts.push(String::from_str("Triggered by: "));
            parts.push(by.clone());
            parts.push(String::from_str("\n"));
        },
        None => {},
    }
    parts.push(String::from_str("\nURL: https://app.bitrise.io/build/"));
    parts.push(build.slug.clone());
    parts.push(String::from_str("\n"));
    let r = concat_all(&parts);
    proof {
        assert(spec_contains(r@, parts@[num_idx]@));
        assert(spec_contains(r@, parts@[status_idx]@));
        assert(spec_contains(r@, parts@[slug_idx]@));
        assert(spec_contains(r@, parts@[branch_idx]@));
        assert(spec_contains(r@, parts@[wf_idx]@));
        assert(spec_contains(r@, parts@[dur_idx]@));
    }
    r
}

/// Format a list of builds for pretty output; every build's number,
/// slug and branch appear.
pub fn format_builds(builds: &Vec<Build>) -> (r: String)
    ensures
        builds@.len() == 0 ==> r@ == "No builds found."@,
        forall|i: int|
            0 <= i < builds@.len() ==> spec_contains(
                r@,
                spec_dec_i64((#[trigger] builds@[i]).build_number as int),
            ) && spec_contains(r@, builds@[i].slug@) && spec_contains(r@, builds@[i].branch@),
{
    if builds.len() == 0 {
        return String::from_str("No builds found.");
    }
    let mut out = String::new();
    out.append("Builds\n");
    let sep = separator(90);
    out.append(sep.as_str());
    out.append("\n");
    let mut i: usize = 0;
    while i < builds.len()
        invariant
            i <= builds@.len(),
            forall|j: int|
                0 <= j < i ==> spec_contains(
                    out@,
                    spec_dec_i64((#[trigger] builds@[j]).build_number as int),
                ) && spec_contains(out@, builds@[j].slug@) && spec_contains(
                    out@,
                    builds@[j].branch@,
                ),
        decreases builds@.len() - i,
    {
        let b = &builds[i];
        let mut parts: Vec<String> = Vec::new();
        parts.push(String::from_str("#"));
        let ghost num_idx = parts@.len() as int;
        parts.push(i64_dec_str(b.build_number));
        parts.push(String::from_str(" "));
        parts.push(String::from_str(b.status_display()));
        parts.push(String::from_str(" "));
        let ghost branch_idx = parts@.len() as int;
        parts.push(b.branch.clone());
        parts.push(String::from_str(" "));
        parts.push(b.triggered_workflow.clone());
        parts.push(String::from_str(" "));
        parts.push(b.duration_display());
        parts.push(String::from_str("\n        Slug: "));
        let ghost slug_idx = parts@.len() as int;
        parts.push(b.slug.clone());
        match b.pull_request_id {
            Some(pr) => {
                parts.push(String::from_str("  PR#"));
                parts.push(i64_dec_str(pr));
            },
            None => {},
        }
        parts.push(String::from_str("\n"));
        match &b.triggered_by {
            Some(by) => {
                parts.push(String::from_str("        By: "));
                parts.push(by.clone());
                parts.push(String::from_str("\n"));
            },
            None => {},
        }
        let block = concat_all(&parts);
        proof {
            assert(spec_contains(block@, parts@[num_idx]@));
            assert(spec_contains(block@, parts@[branch_idx]@));
            assert(spec_contains(block@, parts@[slug_idx]@));
        }
        let ghost before = out@;
        out.append(block.as_str());
        proof {
            crate::strutil::lemma_contains_infix(before, block@, Seq::empty());
            assert(before + block@ + Seq::<char>::empty() =~= out@);
            crate::strutil::lemma_contains_trans(
                out@,
                block@,
                spec_dec_i64(b.build_number as int),
            );
            crate::strutil::lemma_contains_trans(out@, block@, b.slug@);
            crate::strutil::lemma_contains_trans(out@, block@, b.branch@);
            assert forall|j: int| 0 <= j < i implies spec_contains(
                out@,
                spec_dec_i64((#[trigger] builds@[j]).build_number as int),
            ) && spec_contains(out@, builds@[j].slug@) && spec_contains(
                out@,
                builds@[j].branch@,
            ) by {
                crate::strutil::lemma_contains_extend(
                    before,
                    block@,
                    spec_dec_i64(builds@[j].build_number as int),
                );
                crate::strutil::lemma_contains_extend(before, block@, builds@[j].slug@);
                crate::strutil::lemma_contains_extend(before, block@, builds@[j].branch@);
            }
        }
        i = i + 1;
    }
    out
}

/// Format a single pipeline for pretty output: id, name, status,
/// branch, duration and every workflow's name appear.
pub fn format_pipeline(pipeline: &Pipeline) -> (r: String)
    ensures
        spec_contains(r@, pipeline.id@),
        spec_contains(r@, pipeline.pipeline_id@),
        spec_contains(r@, spec_status_display(pipeline.status as int)),
        spec_contains(r@, pipeline.branch@),
        spec_contains(
            r@,
            spec_duration_display(spec_duration(pipeline.started_at, pipeline.finished_at)),
        ),
        forall|i: int|
            0 <= i < pipeline.workflows@.len() ==> spec_contains(
                r@,
                (#[trigger] pipeline.workflows@[i]).name@,
            ),
{
    let mut parts: Vec<String> = Vec::new();
    parts.push(String::from_str("Pipeline "));
    let ghost status_idx = parts@.len() as int;
    parts.push(String::from_str(pipeline.status_display()));
    parts.push(String::from_str("\n"));
    parts.push(separator(60));
    parts.push(String::from_str("\nID: "));
    let ghost id_idx = parts@.len() as int;
    parts.push(pipeline.id.clone());
    parts.push(String::from_str("\nPipeline: "));
    let ghost name_idx = parts@.len() as int;
    parts.push(pipeline.pipeline_id.clone());
    parts.push(String::from_str("\nBranch: "));
    let ghost branch_idx = parts@.len() as int;
    parts.push(pipeline.branch.clone());
    parts.push(String::from_str("\nDuration: "));
    let ghost dur_idx = parts@.len() as int;
    parts.push(pipeline.duration_display());
    parts.push(String::from_str("\n"));
    if pipeline.app_slug.as_str().unicode_len() > 0 {
        parts.push(String::from_str("App: "));
        parts.push(pipeline.app_slug.clone());
        parts.push(String::from_str("\n"));
    }
    match &pipeline.abort_reason {
        Some(reason) => {
            parts.push(String::from_str("Abort Reason: "));
            parts.push(reason.clone());
            parts.push(String::from_str("\n"));
        },
        None => {},
    }
    if pipeline.app_slug.as_str().unicode_len() > 0 {
        let mut url_line = String::new();
        url_line.append("\nURL: https://app.bitrise.io/app/");
        url_line.append(pipeline.app_slug.as_str());
        url_line.append("/pipelines/");
        url_line.append(pipeline.id.as_str());
        url_line.append("\n");
        parts.push(url_line);
    }
    let head = concat_all(&parts);
    proof {
        assert(spec_contains(head@, parts@[status_idx]@));
        assert(spec_contains(head@, parts@[id_idx]@));
        assert(spec_contains(head@, parts@[name_idx]@));
        assert(spec_contains(head@, parts@[branch_idx]@));
        assert(spec_contains(head@, parts@[dur_idx]@));
    }
    let mut out = head;
    if pipeline.workflows.len() > 0 {
        let ghost before_wfs = out@;
        out.append("\nWorkflows\n");
        proof {
            assert forall|x: Seq<char>| spec_contains(before_wfs, x) implies spec_contains(
                out@,
                x,
            ) by {
                crate::strutil::lemma_contains_extend(before_wfs, "\nWorkflows\n"@, x);
            }
        }
        let mut i: usize = 0;
        while i < pipeline.workflows.len()
            invariant
                i <= pipeline.workflows@.len(),
                spec_contains(out@, pipeline.id@),
                spec_contains(out@, pipeline.pipeline_id@),
                spec_contains(out@, spec_status_display(pipeline.status as int)),
                spec_contains(out@, pipeline.branch@),
                spec_contains(
                    out@,
                    spec_duration_display(
                        spec_duration(pipeline.started_at, pipeline.finished_at),
                    ),
                ),
                forall|j: int|
                    0 <= j < i ==> spec_contains(
                        out@,
                        (#[trigger] pipeline.workflows@[j]).name@,
                    ),
            decreases pipeline.workflows@.len() - i,
        {
            let wf = &pipeline.workflows[i];
            let mut wparts: Vec<String> = Vec::new();
            wparts.push(String::from_str("  "));
            let ghost wname_idx = wparts@.len() as int;
            wparts.push(wf.name.clone());
            wparts.push(String::from_str(" "));
            wparts.push(String::from_str(wf.status_display()));
            wparts.push(String::from_str("\n"));
            let block = concat_all(&wparts);
            proof {
                assert(spec_contains(block@, wparts@[wname_idx]@));
            }
            let ghost before = out@;
            out.append(block.as_str());
            proof {
                crate::strutil::lemma_contains_infix(before, block@, Seq::empty());
                assert(before + block@ + Seq::<char>::empty() =~= out@);
                crate::strutil::lemma_contains_trans(out@, block@, wf.name@);
                crate::strutil::lemma_contains_extend(before, block@, pipeline.id@);
                crate::strutil::lemma_contains_extend(before, block@, pipeline.pipeline_id@);
                crate::strutil::lemma_contains_extend(
                    before,
                    block@,
                    spec_status_display(pipeline.status as int),
                );
                crate::strutil::lemma_contains_extend(before, block@, pipeline.branch@);
                crate::strutil::lemma_contains_extend(
                    before,
                    block@,
                    spec_duration_display(
                        spec_duration(pipeline.started_at, pipeline.finished_at),
                    ),
                );
                assert forall|j: int| 0 <= j < i implies spec_contains(
                    out@,
                    (#[trigger] pipeline.workflows@[j]).name@,
                ) by {
                    crate::strutil::lemma_contains_extend(
                        before,
                        block@,
                        pipeline.workflows@[j].name@,
                    );
                }
            }
            i = i + 1;
        }
    }
    out
}

/// Format a list of pipelines for pretty output; every pipeline's id
/// and branch appear.
pub fn format_pipelines(pipelines: &Vec<Pipeline>) -> (r: String)
    ensures
        pipelines@.len() == 0 ==> r@ == "No pipelines found."@,
        forall|i: int|
            0 <= i < pipelines@.len() ==> spec_contains(r@, (#[trigger] pipelines@[i]).id@)
                && spec_contains(r@, pipelines@[i].branch@),
{
    if pipelines.len() == 0 {
        return String::from_str("No pipelines found.");
    }
    let mut out = String::new();
    out.append("Pipelines\n");
    let sep = separator(90);
    out.append(sep.as_str());
    out.append("\n");
    let mut i: usize = 0;
    while i < pipelines.len()
        invariant
            i <= pipelines@.len(),
            forall|j: int|
                0 <= j < i ==> spec_contains(out@, (#[trigger] pipelines@[j]).id@)
                    && spec_contains(out@, pipelines@[j].branch@),
        decreases pipelines@.len() - i,
    {
        let p = &pipelines[i];
        let mut parts: Vec<String> = Vec::new();
        parts.push(String::from_str(p.status_display()));
        parts.push(String::from_str(" "));
        let ghost branch_idx = parts@.len() as int;
        parts.push(p.branch.clone());
        parts.push(String::from_str(" "));
        parts.push(p.pipeline_id.clone());
        parts.push(String::from_str(" "));
        parts.push(p.duration_display());
        parts.push(String::from_str("\n           ID: "));
        let ghost id_idx = parts@.len() as int;
        parts.push(p.id.clone());
        match &p.triggered_by {
            Some(by) => {
                parts.push(String::from_str("  By: "));
                parts.push(by.clone());
            },
            None => {},
        }
        parts.push(String::from_str("\n"));
        if p.status == 0 || p.status == 2 {
            let ghost before_wf = parts@;
            let mut w: usize = 0;
            while w < p.workflows.len()
                invariant
                    w <= p.workflows@.len(),
                    parts@.len() >= before_wf.len(),
                    parts@.subrange(0, before_wf.len() as int) == before_wf,
                decreases p.workflows@.len() - w,
            {
                let ghost parts0 = parts@;
                parts.push(String::from_str("           "));
                parts.push(p.workflows[w].name.clone());
                parts.push(String::from_str(" "));
                parts.push(String::from_str(p.workflows[w].status_display()));
                parts.push(String::from_str("\n"));
                w = w + 1;
                proof {
                    assert(parts@.subrange(0, before_wf.len() as int) =~= parts0.subrange(
                        0,
                        before_wf.len() as int,
                    ));
                }
            }
            proof {
                assert(parts@[branch_idx] == before_wf[branch_idx]);
                assert(parts@[id_idx] == before_wf[id_idx]);
            }
        }
        let block = concat_all(&parts);
        proof {
            assert(spec_contains(block@, parts@[branch_idx]@));
            assert(spec_contains(block@, parts@[id_idx]@));
        }
        let ghost before = out@;
        out.append(block.as_str());
        proof {
            crate::strutil::lemma_contains_infix(before, block@, Seq::empty());
            assert(before + block@ + Seq::<char>::empty() =~= out@);
            crate::strutil::lemma_contains_trans(out@, block@, p.id@);
            crate::strutil::lemma_contains_trans(out@, block@, p.branch@);
            assert forall|j: int| 0 <= j < i implies spec_contains(
                out@,
                (#[trigger] pipelines@[j]).id@,
            ) && spec_contains(out@, pipelines@[j].branch@) by {
                crate::strutil::lemma_contains_extend(before, block@, pipelines@[j].id@);
                crate::strutil::lemma_contains_extend(before, block@, pipelines@[j].branch@);
            }
        }
        i = i + 1;
    }
    out
}

} // verus!

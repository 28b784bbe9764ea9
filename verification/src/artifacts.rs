//! Artifact filtering and safe download names.
//!
//! Artifact names are filtered with a small glob language — `*` for
//! any run of characters, `?` for one character, everything else
//! literal, case-insensitive. A glob is compiled to a tiny
//! regular-expression form (`.*`, `.`, `\x` escapes) and matched by a
//! backtracking matcher whose behaviour is pinned down exactly by
//! [`spec_rmatch`]. Download names are sanitised against path
//! traversal before anything is written under them.

use vstd::prelude::*;
use vstd::string::StringExecFns;

use crate::error::{RepriseError, Result};
use crate::strutil::{
    chars_to_string, contains_chars, lower_of, spec_contains, str_chars, to_lowercase_str,
};
use crate::types::Artifact;

verus! {

/// The characters the glob compiler escapes so they read literally.
pub open spec fn is_regex_special(c: char) -> bool {
    c == '.' || c == '+' || c == '(' || c == ')' || c == '[' || c == ']' || c == '{' || c == '}'
        || c == '^' || c == '$' || c == '|' || c == '\\'
}

/// The regular-expression form of one glob character.
pub open spec fn spec_glob_char(c: char) -> Seq<char> {
    if c == '*' {
        seq!['.', '*']
    } else if c == '?' {
        seq!['.']
    } else if is_regex_special(c) {
        seq!['\\', c]
    } else {
        seq![c]
    }
}

/// The regular-expression form of a whole glob.
pub open spec fn spec_glob_to_regex(s: Seq<char>) -> Seq<char>
    decreases s.len(),
{
    if s.len() == 0 {
        Seq::empty()
    } else {
        spec_glob_char(s[0]) + spec_glob_to_regex(s.skip(1))
    }
}

/// What the backtracking matcher accepts: `.*` matches any run, a
/// backslash escape matches its character, `.` matches one character,
/// a trailing lone backslash matches nothing, and anything else is a
/// literal. The whole text must be consumed.
pub open spec fn spec_rmatch(text: Seq<char>, pat: Seq<char>) -> bool
    decreases pat.len(),
{
    if pat.len() == 0 {
        text.len() == 0
    } else if pat.len() >= 2 && pat[0] == '.' && pat[1] == '*' {
        exists|i: int|
            0 <= i <= text.len() && spec_rmatch(#[trigger] text.skip(i), pat.skip(2))
    } else if pat.len() >= 2 && pat[0] == '\\' {
        text.len() > 0 && text[0] == pat[1] && spec_rmatch(text.skip(1), pat.skip(2))
    } else if pat[0] == '.' {
        text.len() > 0 && spec_rmatch(text.skip(1), pat.skip(1))
    } else if pat[0] == '\\' {
        false
    } else {
        text.len() > 0 && text[0] == pat[0] && spec_rmatch(text.skip(1), pat.skip(1))
    }
}

/// Leading caret anchors, stripped.
pub open spec fn spec_trim_carets(s: Seq<char>) -> Seq<char>
    decreases s.len(),
{
    if s.len() > 0 && s[0] == '^' {
        spec_trim_carets(s.skip(1))
    } else {
        s
    }
}

/// Trailing dollar anchors, stripped.
pub open spec fn spec_trim_dollars(s: Seq<char>) -> Seq<char>
    decreases s.len(),
{
    if s.len() > 0 && s[s.len() - 1] == '$' {
        spec_trim_dollars(s.take(s.len() - 1))
    } else {
        s
    }
}

/// Whether a glob accepts a name: both are lowercased, the glob is
/// compiled to its anchored regular-expression form, the anchors are
/// stripped again, and the matcher decides.
pub open spec fn spec_glob_accepts(name: Seq<char>, pattern: Seq<char>) -> bool {
    spec_rmatch(
        lower_of(name),
        spec_trim_dollars(
            spec_trim_carets(seq!['^'] + spec_glob_to_regex(lower_of(pattern)) + seq!['$']),
        ),
    )
}

/// The backtracking matcher, on character vectors from the given
/// offsets onward.
#[verifier::loop_isolation(false)]
fn rmatch_at(text: &Vec<char>, ti: usize, pat: &Vec<char>, pi: usize) -> (b: bool)
    requires
        ti <= text@.len(),
        pi <= pat@.len(),
    ensures
        b == spec_rmatch(text@.skip(ti as int), pat@.skip(pi as int)),
    decreases pat@.len() - pi,
{
    let ghost t = text@.skip(ti as int);
    let ghost p = pat@.skip(pi as int);
    if pi == pat.len() {
        return ti == text.len();
    }
    if pi + 1 < pat.len() && pat[pi] == '.' && pat[pi + 1] == '*' {
        proof {
            assert(p.skip(2) =~= pat@.skip(pi + 2));
        }
        let n = text.len();
        let mut i: usize = ti;
        while i < n
            invariant
                ti <= i <= n,
                n == text@.len(),
                pi + 2 <= pat@.len(),
                forall|k: int|
                    ti <= k < i ==> !spec_rmatch(#[trigger] text@.skip(k), pat@.skip(pi + 2)),
            decreases n - i,
        {
            if rmatch_at(text, i, pat, pi + 2) {
                proof {
                    assert(t.skip(i - ti) =~= text@.skip(i as int));
                }
                return true;
            }
            i = i + 1;
        }
        if rmatch_at(text, n, pat, pi + 2) {
            proof {
                assert(t.skip(n - ti) =~= text@.skip(n as int));
            }
            return true;
        }
        proof {
            assert forall|j: int| 0 <= j <= t.len() implies !spec_rmatch(
                #[trigger] t.skip(j),
                p.skip(2),
            ) by {
                assert(t.skip(j) =~= text@.skip(ti + j));
            }
        }
        return false;
    }
    if pi + 1 < pat.len() && pat[pi] == '\\' {
        if ti < text.len() && text[ti] == pat[pi + 1] {
            proof {
                assert(t.skip(1) =~= text@.skip(ti + 1));
                assert(p.skip(2) =~= pat@.skip(pi + 2));
            }
            return rmatch_at(text, ti + 1, pat, pi + 2);
        }
        return false;
    }
    if pat[pi] == '.' {
        if ti < text.len() {
            proof {
                assert(t.skip(1) =~= text@.skip(ti + 1));
                assert(p.skip(1) =~= pat@.skip(pi + 1));
            }
            return rmatch_at(text, ti + 1, pat, pi + 1);
        }
        return false;
    }
    if pat[pi] == '\\' {
        return false;
    }
    if ti < text.len() && text[ti] == pat[pi] {
        proof {
            assert(t.skip(1) =~= text@.skip(ti + 1));
            assert(p.skip(1) =~= pat@.skip(pi + 1));
        }
        return rmatch_at(text, ti + 1, pat, pi + 1);
    }
    false
}

/// Simple regular-expression matcher for glob-converted patterns:
/// strips `^`/`$` anchors, then runs the backtracking matcher.
#[verifier::loop_isolation(false)]
pub fn simple_regex_match(text: &str, pattern: &str) -> (b: bool)
    ensures
        b == spec_rmatch(text@, spec_trim_dollars(spec_trim_carets(pattern@))),
{
    let t = str_chars(text);
    let p = str_chars(pattern);
    let mut start: usize = 0;
    proof {
        assert(pattern@.skip(0) =~= pattern@);
    }
    while start < p.len() && p[start] == '^'
        invariant
            start <= p@.len(),
            p@ == pattern@,
            spec_trim_carets(pattern@) == spec_trim_carets(pattern@.skip(start as int)),
        decreases p@.len() - start,
    {
        proof {
            assert(pattern@.skip(start as int).skip(1) =~= pattern@.skip(start + 1));
        }
        start = start + 1;
    }
    let ghost trimmed_front = pattern@.skip(start as int);
    proof {
        assert(spec_trim_carets(trimmed_front) == trimmed_front);
    }
    let mut end: usize = p.len();
    while end > start && p[end - 1] == '$'
        invariant
            start <= end <= p@.len(),
            p@ == pattern@,
            spec_trim_dollars(trimmed_front) == spec_trim_dollars(
                pattern@.subrange(start as int, end as int),
            ),
            trimmed_front == pattern@.skip(start as int),
        decreases end,
    {
        proof {
            let cur = pattern@.subrange(start as int, end as int);
            assert(cur.take(cur.len() - 1) =~= pattern@.subrange(start as int, end - 1));
        }
        end = end - 1;
    }
    let ghost trimmed = pattern@.subrange(start as int, end as int);
    proof {
        assert(spec_trim_dollars(trimmed) == trimmed);
    }
    let mut cut: Vec<char> = Vec::new();
    let mut i: usize = start;
    while i < end
        invariant
            start <= i <= end <= p@.len(),
            p@ == pattern@,
            cut@ == pattern@.subrange(start as int, i as int),
        decreases end - i,
    {
        cut.push(p[i]);
        i = i + 1;
        proof {
            assert(cut@ =~= pattern@.subrange(start as int, i as int));
        }
    }
    let r = rmatch_at(&t, 0, &cut, 0);
    proof {
        assert(t@.skip(0) =~= text@);
        assert(cut@.skip(0) =~= trimmed);
    }
    r
}

/// Match a filename against a simple glob pattern, case-insensitively:
/// `*` matches any run of characters, `?` any single character, and
/// everything else itself.
#[verifier::loop_isolation(false)]
pub fn matches_glob(name: &str, pattern: &str) -> (b: bool)
    ensures
        b == spec_glob_accepts(name@, pattern@),
{
    let name_lower = to_lowercase_str(name);
    let pattern_lower = to_lowercase_str(pattern);
    let p = str_chars(pattern_lower.as_str());
    let mut regex: Vec<char> = Vec::new();
    regex.push('^');
    let mut i: usize = 0;
    proof {
        assert(p@.skip(0) =~= p@);
        assert(regex@ =~= seq!['^']);
        assert(seq!['^'] + spec_glob_to_regex(p@) =~= regex@ + spec_glob_to_regex(p@));
    }
    while i < p.len()
        invariant
            i <= p@.len(),
            seq!['^'] + spec_glob_to_regex(p@) =~= regex@ + spec_glob_to_regex(
                p@.skip(i as int),
            ),
        decreases p@.len() - i,
    {
        let ghost rem = p@.skip(i as int);
        let c = p[i];
        proof {
            assert(rem[0] == c);
            assert(rem.skip(1) =~= p@.skip(i + 1));
        }
        if c == '*' {
            regex.push('.');
            regex.push('*');
        } else if c == '?' {
            regex.push('.');
        } else if c == '.' || c == '+' || c == '(' || c == ')' || c == '[' || c == ']'
            || c == '{' || c == '}' || c == '^' || c == '$' || c == '|' || c == '\\' {
            regex.push('\\');
            regex.push(c);
        } else {
            regex.push(c);
        }
        i = i + 1;
        proof {
            assert(seq!['^'] + spec_glob_to_regex(p@) =~= regex@ + spec_glob_to_regex(
                p@.skip(i as int),
            ));
        }
    }
    regex.push('$');
    proof {
        assert(p@.skip(i as int) =~= Seq::<char>::empty());
        assert(spec_glob_to_regex(Seq::<char>::empty()) =~= Seq::<char>::empty());
        assert(regex@ =~= seq!['^'] + spec_glob_to_regex(lower_of(pattern@)) + seq!['$']);
    }
    let name_chars = str_chars(name_lower.as_str());
    let regex_string = chars_to_string(&regex);
    let r = simple_regex_match(name_lower.as_str(), regex_string.as_str());
    r
}

/// An artifact is kept when its name matches the filter glob (if any)
/// and does not match the exclude glob (if any).
pub open spec fn spec_artifact_kept(
    a: Artifact,
    filter: Option<&str>,
    exclude: Option<&str>,
) -> bool {
    (match filter {
        None => true,
        Some(p) => spec_glob_accepts(a.title@, p@),
    }) && (match exclude {
        None => true,
        Some(p) => !spec_glob_accepts(a.title@, p@),
    })
}

/// Filter artifacts based on filter and exclude patterns, keeping the
/// original order.
#[verifier::loop_isolation(false)]
pub fn filter_artifacts<'a>(
    artifacts: &'a Vec<Artifact>,
    filter: Option<&str>,
    exclude: Option<&str>,
) -> (r: Vec<&'a Artifact>)
    ensures
        r@.map_values(|a: &Artifact| *a) == artifacts@.filter(
            |a: Artifact| spec_artifact_kept(a, filter, exclude),
        ),
{
    let ghost pred = |a: Artifact| spec_artifact_kept(a, filter, exclude);
    let mut r: Vec<&'a Artifact> = Vec::new();
    let mut i: usize = 0;
    proof {
        reveal_with_fuel(Seq::<_>::filter, 2);
        assert(artifacts@.take(0) =~= Seq::<Artifact>::empty());
        assert(r@.map_values(|a: &Artifact| *a) =~= Seq::<Artifact>::empty().filter(pred));
    }
    while i < artifacts.len()
        invariant
            i <= artifacts@.len(),
            r@.map_values(|a: &Artifact| *a) == artifacts@.take(i as int).filter(pred),
        decreases artifacts@.len() - i,
    {
        let a = &artifacts[i];
        let keep_in = match filter {
            Some(p) => matches_glob(a.title.as_str(), p),
            None => true,
        };
        let keep_out = match exclude {
            Some(p) => !matches_glob(a.title.as_str(), p),
            None => true,
        };
        proof {
            reveal_with_fuel(Seq::<_>::filter, 2);
            let prev = artifacts@.take(i as int);
            let one = seq![artifacts@[i as int]];
            assert(artifacts@.take(i + 1) =~= prev + one);
            Seq::<Artifact>::filter_distributes_over_add(prev, one, pred);
            assert(one.drop_last() =~= Seq::<Artifact>::empty());
            assert(Seq::<Artifact>::empty().filter(pred) =~= Seq::<Artifact>::empty());
            if pred(artifacts@[i as int]) {
                assert(one.filter(pred) =~= one);
            } else {
                assert(one.filter(pred) =~= Seq::<Artifact>::empty());
            }
        }
        if keep_in && keep_out {
            let ghost before = r@;
            r.push(a);
            proof {
                assert(r@.map_values(|x: &Artifact| *x) =~= before.map_values(
                    |x: &Artifact| *x,
                ) + seq![artifacts@[i as int]]);
            }
        } else {
            proof {
                assert(artifacts@.take(i + 1).filter(pred) =~= artifacts@.take(i as int).filter(
                    pred,
                ));
            }
        }
        i = i + 1;
    }
    proof {
        assert(artifacts@.take(artifacts@.len() as int) =~= artifacts@);
    }
    r
}

/// The suffix of a name after its last path separator.
pub open spec fn spec_after_last_slash(s: Seq<char>) -> Seq<char>
    decreases s.len(),
{
    if s.len() == 0 {
        s
    } else if exists|i: int| 0 <= i < s.len() && s[i] == '/' {
        spec_after_last_slash(s.skip(1))
    } else {
        s
    }
}

/// A base name is safe when it is nonempty, not hidden, and free of
/// parent-directory references and backslashes.
pub open spec fn spec_safe_basename(base: Seq<char>) -> bool {
    base.len() > 0 && base[0] != '.' && !spec_contains(base, ".."@) && !base.contains('\\')
}

/// Dropping characters up to and including the last slash yields the
/// suffix after it.
proof fn lemma_after_last_slash(s: Seq<char>, k: int)
    requires
        0 <= k < s.len(),
        s[k] == '/',
        forall|j: int| k < j < s.len() ==> s[j] != '/',
    ensures
        spec_after_last_slash(s) == s.skip(k + 1),
    decreases k,
{
    assert(spec_after_last_slash(s) == spec_after_last_slash(s.skip(1)));
    if k == 0 {
        assert(forall|j: int| 0 <= j < s.skip(1).len() ==> s.skip(1)[j] != '/');
        assert(spec_after_last_slash(s.skip(1)) == s.skip(1));
    } else {
        assert(s.skip(1)[k - 1] == '/');
        assert(forall|j: int| k - 1 < j < s.skip(1).len() ==> s.skip(1)[j] != '/');
        lemma_after_last_slash(s.skip(1), k - 1);
        assert(s.skip(1).skip(k) =~= s.skip(k + 1));
    }
}

/// Sanitize a filename to prevent path traversal: keep only what
/// follows the last slash, and reject it when it is empty, hidden,
/// or still holds a parent reference or a backslash.
#[verifier::loop_isolation(false)]
pub fn sanitize_filename(name: &str) -> (r: Result<String>)
    ensures
        match r {
            Ok(base) => base@ == spec_after_last_slash(name@) && spec_safe_basename(base@),
            Err(e) => e matches RepriseError::InvalidArgument(_) && !spec_safe_basename(
                spec_after_last_slash(name@),
            ),
        },
{
    let chars = str_chars(name);
    let mut cut: usize = 0;
    let mut j: usize = 0;
    while j < chars.len()
        invariant
            cut <= j <= chars@.len(),
            chars@ == name@,
            cut == 0 || (cut >= 1 && name@[cut - 1] == '/'),
            forall|t: int| cut <= t < j ==> name@[t] != '/',
        decreases chars@.len() - j,
    {
        if chars[j] == '/' {
            cut = j + 1;
        }
        j = j + 1;
    }
    let mut base_chars: Vec<char> = Vec::new();
    let mut k: usize = cut;
    while k < chars.len()
        invariant
            cut <= k <= chars@.len(),
            chars@ == name@,
            base_chars@ == name@.subrange(cut as int, k as int),
        decreases chars@.len() - k,
    {
        base_chars.push(chars[k]);
        k = k + 1;
        proof {
            assert(base_chars@ =~= name@.subrange(cut as int, k as int));
        }
    }
    proof {
        assert(base_chars@ =~= name@.skip(cut as int));
        if cut == 0 {
            if name@.len() > 0 {
                assert(forall|t: int| 0 <= t < name@.len() ==> name@[t] != '/');
                assert(spec_after_last_slash(name@) == name@);
            }
            assert(base_chars@ == spec_after_last_slash(name@));
        } else {
            lemma_after_last_slash(name@, cut - 1);
        }
    }
    let dots = str_chars("..");
    proof {
        reveal_strlit("..");
    }
    let has_dots = contains_chars(&base_chars, &dots);
    let mut has_backslash = false;
    let mut t: usize = 0;
    while t < base_chars.len()
        invariant
            t <= base_chars@.len(),
            has_backslash == base_chars@.take(t as int).contains('\\'),
        decreases base_chars@.len() - t,
    {
        if base_chars[t] == '\\' {
            has_backslash = true;
        }
        t = t + 1;
        proof {
            if base_chars@[t - 1] == '\\' {
                assert(base_chars@.take(t as int)[t - 1] == '\\');
                assert(base_chars@.take(t as int).contains('\\'));
            } else {
                if base_chars@.take(t as int).contains('\\') {
                    let w = choose|w: int|
                        0 <= w < t && base_chars@.take(t as int)[w] == '\\';
                    assert(base_chars@.take(t - 1)[w] == '\\');
                    assert(base_chars@.take(t - 1).contains('\\'));
                } else {
                    let prev = base_chars@.take(t - 1);
                    if prev.contains('\\') {
                        let w = choose|w: int| 0 <= w < prev.len() && prev[w] == '\\';
                        assert(base_chars@.take(t as int)[w] == '\\');
                    }
                }
            }
        }
    }
    proof {
        assert(base_chars@.take(base_chars@.len() as int) =~= base_chars@);
    }
    let bad = base_chars.len() == 0 || base_chars[0] == '.' || has_dots || has_backslash;
    if bad {
        let mut m = String::new();
        m.append("Invalid artifact filename: ");
        m.append(name);
        Err(RepriseError::InvalidArgument(m))
    } else {
        Ok(chars_to_string(&base_chars))
    }
}

/// Sanitize an artifact filename before downloading under it.
pub fn sanitize_artifact_filename(name: &str) -> (r: Result<String>)
    ensures
        match r {
            Ok(base) => base@ == spec_after_last_slash(name@) && spec_safe_basename(base@),
            Err(e) => e matches RepriseError::InvalidArgument(_) && !spec_safe_basename(
                spec_after_last_slash(name@),
            ),
        },
{
    sanitize_filename(name)
}

} // verus!

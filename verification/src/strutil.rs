//! Verified string helpers: character-level views of `&str`, substring
//! search, decimal rendering of integers, and line splitting with the
//! same semantics as the standard library's line iterator (split at
//! `'\n'`, drop one trailing `'\r'` per split, optional final newline).

use vstd::prelude::*;
use vstd::string::StrSliceExecFns;

verus! {

/// `needle` occurs in `hay` starting at index `i`.
pub open spec fn contains_at(hay: Seq<char>, i: int, needle: Seq<char>) -> bool {
    0 <= i && i + needle.len() <= hay.len() && hay.subrange(i, i + needle.len() as int)
        == needle
}

/// `needle` occurs somewhere in `hay` (the empty needle always occurs).
pub open spec fn spec_contains(hay: Seq<char>, needle: Seq<char>) -> bool {
    exists|i: int| contains_at(hay, i, needle)
}

/// `pre` is a prefix of `s`.
pub open spec fn spec_starts_with(s: Seq<char>, pre: Seq<char>) -> bool {
    pre.len() <= s.len() && s.subrange(0, pre.len() as int) == pre
}

/// A string contains any prefix of itself, wherever it stands in a
/// concatenation.
pub proof fn lemma_contains_infix(a: Seq<char>, x: Seq<char>, b: Seq<char>)
    ensures
        spec_contains(a + x + b, x),
{
    let hay = a + x + b;
    assert(contains_at(hay, a.len() as int, x)) by {
        assert(hay.subrange(a.len() as int, a.len() + x.len() as int) =~= x);
    }
}

/// Containment is preserved when more text is appended on either side.
pub proof fn lemma_contains_extend(a: Seq<char>, b: Seq<char>, x: Seq<char>)
    requires
        spec_contains(a, x),
    ensures
        spec_contains(a + b, x),
        spec_contains(b + a, x),
{
    let i = choose|i: int| contains_at(a, i, x);
    assert(contains_at(a + b, i, x)) by {
        assert((a + b).subrange(i, i + x.len()) =~= a.subrange(i, i + x.len()));
    }
    assert(contains_at(b + a, b.len() + i, x)) by {
        assert((b + a).subrange(b.len() + i, b.len() + i + x.len()) =~= a.subrange(
            i,
            i + x.len(),
        ));
    }
}

/// Containment is transitive: what a part holds, the whole holds.
pub proof fn lemma_contains_trans(a: Seq<char>, b: Seq<char>, x: Seq<char>)
    requires
        spec_contains(a, b),
        spec_contains(b, x),
    ensures
        spec_contains(a, x),
{
    let i = choose|i: int| contains_at(a, i, b);
    let j = choose|j: int| contains_at(b, j, x);
    assert(contains_at(a, i + j, x)) by {
        assert(a.subrange(i + j, i + j + x.len() as int) =~= b.subrange(j, j + x.len() as int));
    }
}

/// Join a list of parts into one string; the result holds every part
/// as a substring.
pub fn concat_all(parts: &Vec<String>) -> (r: String)
    ensures
        forall|i: int| 0 <= i < parts@.len() ==> spec_contains(r@, #[trigger] parts@[i]@),
{
    let mut out = String::new();
    let mut i: usize = 0;
    while i < parts.len()
        invariant
            i <= parts@.len(),
            forall|j: int| 0 <= j < i ==> spec_contains(out@, #[trigger] parts@[j]@),
        decreases parts@.len() - i,
    {
        let ghost before = out@;
        out.append(parts[i].as_str());
        proof {
            assert forall|j: int| 0 <= j < i implies spec_contains(
                out@,
                #[trigger] parts@[j]@,
            ) by {
                lemma_contains_extend(before, parts@[i as int]@, parts@[j as int]@);
            }
            lemma_contains_infix(before, parts@[i as int]@, Seq::empty());
            assert(before + parts@[i as int]@ + Seq::<char>::empty() =~= out@);
        }
        i = i + 1;
    }
    out
}

/// The characters of `s`, as a vector.
pub fn str_chars(s: &str) -> (v: Vec<char>)
    ensures
        v@ == s@,
{
    let n: usize = s.unicode_len();
    let mut v: Vec<char> = Vec::new();
    let mut i: usize = 0;
    while i < n
        invariant
            i <= n,
            n == s@.len(),
            v@ == s@.subrange(0, i as int),
        decreases n - i,
    {
        v.push(s.get_char(i));
        i = i + 1;
        proof {
            assert(v@ =~= s@.subrange(0, i as int));
        }
    }
    proof {
        assert(v@ =~= s@);
    }
    v
}

/// Relies on `core::iter::Iterator::collect` to rebuild a `String` from
/// its characters.
#[verifier::external_body]
pub fn chars_to_string(v: &Vec<char>) -> (s: String)
    ensures
        s@ == v@,
{
    v.iter().collect()
}

/// Whether `hay[i..]` starts with `needle`.
fn match_at(hay: &Vec<char>, i: usize, needle: &Vec<char>) -> (b: bool)
    requires
        i + needle@.len() <= hay@.len(),
    ensures
        b == contains_at(hay@, i as int, needle@),
{
    let hay_len: usize = hay.len();
    let mut j: usize = 0;
    while j < needle.len()
        invariant
            j <= needle@.len(),
            i + needle@.len() <= hay@.len(),
            hay_len == hay@.len(),
            forall|k: int| 0 <= k < j ==> hay@[i + k] == needle@[k],
        decreases needle@.len() - j,
    {
        if hay[i + j] != needle[j] {
            assert(hay@.subrange(i as int, i + needle@.len()) != needle@) by {
                assert(hay@.subrange(i as int, i + needle@.len())[j as int] != needle@[j as int]);
            }
            return false;
        }
        j = j + 1;
    }
    proof {
        assert(hay@.subrange(i as int, i + needle@.len()) =~= needle@);
    }
    true
}

/// Substring search: does `needle` occur anywhere in `hay`?
pub fn contains_chars(hay: &Vec<char>, needle: &Vec<char>) -> (b: bool)
    ensures
        b == spec_contains(hay@, needle@),
{
    if needle.len() == 0 {
        proof {
            assert(contains_at(hay@, 0, needle@)) by {
                assert(hay@.subrange(0, 0) =~= needle@);
            }
        }
        return true;
    }
    if needle.len() > hay.len() {
        proof {
            assert(forall|i: int| !contains_at(hay@, i, needle@));
        }
        return false;
    }
    let stop: usize = hay.len() - needle.len();
    let mut i: usize = 0;
    while i <= stop
        invariant
            needle@.len() >= 1,
            stop == hay@.len() - needle@.len(),
            stop < usize::MAX,
            i <= stop + 1,
            forall|k: int| 0 <= k < i ==> !contains_at(hay@, k, needle@),
        decreases stop + 1 - i,
    {
        if match_at(hay, i, needle) {
            return true;
        }
        i = i + 1;
    }
    proof {
        assert(forall|k: int| contains_at(hay@, k, needle@) ==> 0 <= k <= stop);
    }
    false
}

/// Prefix test over character vectors.
pub fn starts_with_chars(s: &Vec<char>, pre: &Vec<char>) -> (b: bool)
    ensures
        b == spec_starts_with(s@, pre@),
{
    if pre.len() > s.len() {
        return false;
    }
    let r = match_at(s, 0, pre);
    proof {
        assert(s@.subrange(0, pre@.len() as int) == s@.subrange(0int, 0 + pre@.len() as int));
    }
    r
}

/// `suf` is a suffix of `s`.
pub open spec fn spec_ends_with(s: Seq<char>, suf: Seq<char>) -> bool {
    suf.len() <= s.len() && s.subrange(s.len() - suf.len(), s.len() as int) == suf
}

/// Suffix test over character vectors.
pub fn ends_with_chars(s: &Vec<char>, suf: &Vec<char>) -> (b: bool)
    ensures
        b == spec_ends_with(s@, suf@),
{
    if suf.len() > s.len() {
        return false;
    }
    let off: usize = s.len() - suf.len();
    let r = match_at(s, off, suf);
    proof {
        assert(s@.subrange(s@.len() - suf@.len(), s@.len() as int) == s@.subrange(
            off as int,
            off + suf@.len() as int,
        ));
    }
    r
}

/// The decimal digits of `n`, most significant first.
pub open spec fn spec_dec(n: nat) -> Seq<char>
    decreases n,
{
    if n < 10 {
        seq![((48 + n) as u8) as char]
    } else {
        spec_dec(n / 10) + seq![((48 + n % 10) as u8) as char]
    }
}

/// Decimal rendering of a `u64`, as characters.
pub fn u64_dec_chars(n: u64) -> (v: Vec<char>)
    ensures
        v@ == spec_dec(n as nat),
    decreases n,
{
    if n < 10 {
        let c: char = (48 + (n as u8)) as char;
        let mut v: Vec<char> = Vec::new();
        v.push(c);
        proof {
            assert(v@ =~= spec_dec(n as nat));
        }
        v
    } else {
        let mut v = u64_dec_chars(n / 10);
        let c: char = (48 + ((n % 10) as u8)) as char;
        v.push(c);
        proof {
            assert(v@ =~= spec_dec(n as nat));
        }
        v
    }
}

/// Decimal rendering of a `u64`, as a `String`.
pub fn u64_dec_str(n: u64) -> (s: String)
    ensures
        s@ == spec_dec(n as nat),
{
    let v = u64_dec_chars(n);
    chars_to_string(&v)
}

/// The decimal rendering of an `i64`: a minus sign for negative values,
/// then the digits of the magnitude.
pub open spec fn spec_dec_i64(n: int) -> Seq<char> {
    if n < 0 {
        seq!['-'] + spec_dec((-n) as nat)
    } else {
        spec_dec(n as nat)
    }
}

/// Decimal rendering of an `i64`, as characters.
pub fn i64_dec_chars(n: i64) -> (v: Vec<char>)
    ensures
        v@ == spec_dec_i64(n as int),
{
    if n < 0 {
        // i64::MIN has no i64 negation; step through n + 1 instead.
        let mag: u64 = (-(n + 1)) as u64 + 1;
        assert(mag == -(n as int));
        let digits = u64_dec_chars(mag);
        let mut v: Vec<char> = Vec::new();
        v.push('-');
        let mut k: usize = 0;
        while k < digits.len()
            invariant
                k <= digits@.len(),
                v@ == seq!['-'] + digits@.subrange(0, k as int),
            decreases digits@.len() - k,
        {
            v.push(digits[k]);
            k = k + 1;
            proof {
                assert(v@ =~= seq!['-'] + digits@.subrange(0, k as int));
            }
        }
        proof {
            assert(digits@.subrange(0, digits@.len() as int) =~= digits@);
        }
        v
    } else {
        let v = u64_dec_chars(n as u64);
        v
    }
}

/// Decimal rendering of an `i64`, as a `String`.
pub fn i64_dec_str(n: i64) -> (s: String)
    ensures
        s@ == spec_dec_i64(n as int),
{
    let v = i64_dec_chars(n);
    chars_to_string(&v)
}

/// The result of Unicode-lowercasing a character sequence, as
/// `str::to_lowercase` computes it. The mapping depends on the
/// characters alone.
pub uninterp spec fn lower_of(s: Seq<char>) -> Seq<char>;

/// Relies on `str::to_lowercase`: the result is a function of the input
/// characters alone.
#[verifier::external_body]
pub fn to_lowercase_str(s: &str) -> (r: String)
    ensures
        r@ == lower_of(s@),
{
    s.to_lowercase()
}

/// Drop one trailing carriage return, if present.
pub open spec fn strip_cr(s: Seq<char>) -> Seq<char> {
    if s.len() > 0 && s[s.len() - 1] == '\r' {
        s.drop_last()
    } else {
        s
    }
}

/// The lines of `s` after `cur` has already been read from the current
/// line: split at each `'\n'`, dropping one `'\r'` before it; a final
/// segment without a newline is kept as it stands.
pub open spec fn lines_acc(s: Seq<char>, cur: Seq<char>) -> Seq<Seq<char>>
    decreases s.len(),
{
    if s.len() == 0 {
        if cur.len() == 0 {
            Seq::empty()
        } else {
            seq![cur]
        }
    } else if s[0] == '\n' {
        seq![strip_cr(cur)] + lines_acc(s.skip(1), Seq::empty())
    } else {
        lines_acc(s.skip(1), cur.push(s[0]))
    }
}

/// The lines of `s`, with the standard library's splitting rules.
pub open spec fn spec_lines(s: Seq<char>) -> Seq<Seq<char>> {
    lines_acc(s, Seq::empty())
}

/// Split `s` into lines: segments are cut at `'\n'`, one `'\r'` before
/// each cut is dropped, and the final line ending is optional.
pub fn split_lines(s: &str) -> (r: Vec<String>)
    ensures
        r.deep_view() == spec_lines(s@),
{
    let chars = str_chars(s);
    let ghost whole: Seq<char> = s@;
    let mut out: Vec<String> = Vec::new();
    let mut cur: Vec<char> = Vec::new();
    let mut i: usize = 0;
    proof {
        assert(whole.skip(0) =~= whole);
        assert(out.deep_view() + lines_acc(whole, Seq::empty()) =~= lines_acc(
            whole,
            Seq::empty(),
        ));
    }
    while i < chars.len()
        invariant
            i <= chars@.len(),
            chars@ == whole,
            spec_lines(whole) == out.deep_view() + lines_acc(whole.skip(i as int), cur@),
        decreases chars@.len() - i,
    {
        let ghost rem = whole.skip(i as int);
        let ghost out0 = out.deep_view();
        let ghost cur0 = cur@;
        let c = chars[i];
        proof {
            assert(rem[0] == c);
            assert(rem.skip(1) =~= whole.skip(i + 1));
        }
        if c == '\n' {
            let mut line = cur;
            if line.len() > 0 && line[line.len() - 1] == '\r' {
                line.pop();
            }
            proof {
                assert(line@ == strip_cr(cur0));
            }
            let text = chars_to_string(&line);
            out.push(text);
            cur = Vec::new();
            proof {
                assert(out.deep_view() =~= out0 + seq![strip_cr(cur0)]);
                assert(lines_acc(rem, cur0) == seq![strip_cr(cur0)] + lines_acc(
                    whole.skip(i + 1),
                    Seq::empty(),
                ));
                assert(out0 + (seq![strip_cr(cur0)] + lines_acc(whole.skip(i + 1), Seq::empty()))
                    =~= (out0 + seq![strip_cr(cur0)]) + lines_acc(
                    whole.skip(i + 1),
                    Seq::empty(),
                ));
            }
        } else {
            cur.push(c);
            proof {
                assert(lines_acc(rem, cur0) == lines_acc(whole.skip(i + 1), cur0.push(c)));
            }
        }
        i = i + 1;
    }
    proof {
        assert(whole.skip(i as int) =~= Seq::<char>::empty());
    }
    if cur.len() > 0 {
        let ghost out0 = out.deep_view();
        let ghost cur0 = cur@;
        let text = chars_to_string(&cur);
        out.push(text);
        proof {
            assert(out.deep_view() =~= out0 + seq![cur0]);
            assert(lines_acc(Seq::<char>::empty(), cur0) == seq![cur0]);
        }
    } else {
        proof {
            assert(lines_acc(Seq::<char>::empty(), cur@) =~= Seq::<Seq<char>>::empty());
            assert(out.deep_view() + Seq::<Seq<char>>::empty() =~= out.deep_view());
        }
    }
    out
}

} // verus!

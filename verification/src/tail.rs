//! Incremental log tailing. The remote service only serves the whole
//! log, so the tailer re-reads it each round and computes the newly
//! appended lines locally: the suffix past the count already shown.
//! A log that shrank — an anomaly the remote is not assumed incapable
//! of — yields an empty delta and leaves the count alone, so the count
//! never decreases within one tailing run.

use vstd::prelude::*;
use vstd::string::{StrSliceExecFns, StringExecFns};

verus! {

/// The lines not yet emitted: the suffix of `lines` past `count`, or
/// nothing when the log has fewer lines than already emitted.
pub open spec fn spec_tail_delta(count: nat, lines: Seq<Seq<char>>) -> Seq<Seq<char>> {
    if lines.len() >= count {
        lines.skip(count as int)
    } else {
        Seq::empty()
    }
}

/// The count after observing a log with `len` lines: it only ever grows.
pub open spec fn spec_tail_next(count: nat, len: nat) -> nat {
    if len > count {
        len
    } else {
        count
    }
}

/// The count of log lines already emitted for one job. Owned by a
/// single tailing run.
pub struct TailState {
    pub lines_emitted: usize,
}

impl TailState {
    /// A fresh tailer that has emitted nothing.
    pub fn new() -> (s: Self)
        ensures
            s.lines_emitted == 0,
    {
        TailState { lines_emitted: 0 }
    }

    /// Take the lines appended since the last fetch. The delta is the
    /// suffix past the emitted count — empty if the log shrank — and
    /// the count advances to the new total, never backwards.
    pub fn take_new_lines(&mut self, lines: Vec<String>) -> (delta: Vec<String>)
        ensures
            delta.deep_view() == spec_tail_delta(
                old(self).lines_emitted as nat,
                lines.deep_view(),
            ),
            final(self).lines_emitted == spec_tail_next(
                old(self).lines_emitted as nat,
                lines@.len(),
            ),
            final(self).lines_emitted >= old(self).lines_emitted,
    {
        let mut lines = lines;
        if lines.len() >= self.lines_emitted {
            let delta = lines.split_off(self.lines_emitted);
            if delta.len() > 0 {
                self.lines_emitted = self.lines_emitted + delta.len();
            }
            proof {
                assert(delta.deep_view() =~= spec_tail_delta(
                    old(self).lines_emitted as nat,
                    lines.deep_view() + delta.deep_view(),
                ));
            }
            delta
        } else {
            let delta: Vec<String> = Vec::new();
            proof {
                assert(delta.deep_view() =~= Seq::<Seq<char>>::empty());
            }
            delta
        }
    }
}

/// Lines joined with single newlines between them.
pub open spec fn spec_join_lines(lines: Seq<Seq<char>>) -> Seq<char>
    decreases lines.len(),
{
    if lines.len() == 0 {
        Seq::empty()
    } else if lines.len() == 1 {
        lines[0]
    } else {
        spec_join_lines(lines.drop_last()) + seq!['\n'] + lines.last()
    }
}

/// The last `n` lines of a log, joined with newlines: the tail the
/// log command shows on request.
#[verifier::loop_isolation(false)]
pub fn tail_lines(content: &str, n: usize) -> (r: String)
    ensures
        ({
            let lines = crate::strutil::spec_lines(content@);
            let start = if lines.len() >= n {
                lines.len() - n
            } else {
                0
            };
            r@ == spec_join_lines(lines.skip(start as int))
        }),
{
    let lines = crate::strutil::split_lines(content);
    let ghost all = crate::strutil::spec_lines(content@);
    let start: usize = if lines.len() >= n {
        lines.len() - n
    } else {
        0
    };
    let mut out = String::new();
    let mut k: usize = start;
    proof {
        assert(all.skip(start as int).take(0) =~= Seq::<Seq<char>>::empty());
    }
    while k < lines.len()
        invariant
            start <= k <= lines@.len(),
            lines.deep_view() == all,
            out@ == spec_join_lines(all.skip(start as int).take((k - start) as int)),
        decreases lines@.len() - k,
    {
        if k > start {
            out.append("\n");
        }
        out.append(lines[k].as_str());
        k = k + 1;
        proof {
            reveal_strlit("\n");
            assert("\n"@ =~= seq!['\n']);
            let sub = all.skip(start as int).take((k - start) as int);
            assert(sub.drop_last() =~= all.skip(start as int).take((k - 1 - start) as int));
            assert(sub.last() == all[k - 1]);
            assert(lines@[k - 1]@ == all[k - 1]);
        }
    }
    proof {
        assert(all.skip(start as int).take((lines@.len() - start) as int) =~= all.skip(
            start as int,
        ));
    }
    out
}

/// A fetched log that is empty, once the job can no longer add to it,
/// is a log that never became available.
pub fn check_log_nonempty(content: String) -> (r: crate::error::Result<String>)
    ensures
        content@.len() > 0 ==> (r matches Ok(c) && c == content),
        content@.len() == 0 ==> (r matches Err(
            crate::error::RepriseError::LogNotAvailable(m),
        ) && m@ == "Log content is empty or not yet available."@),
{
    if content.as_str().unicode_len() == 0 {
        let mut m = String::new();
        m.append("Log content is empty or not yet available.");
        Err(crate::error::RepriseError::LogNotAvailable(m))
    } else {
        Ok(content)
    }
}

/// One fetched log is a prefix of the next.
pub open spec fn prefix_of(a: Seq<Seq<char>>, b: Seq<Seq<char>>) -> bool {
    a.len() <= b.len() && a == b.take(a.len() as int)
}

/// Every fetch in the sequence extends the one before it.
pub open spec fn chain_of_fetches(fetches: Seq<Seq<Seq<char>>>) -> bool {
    forall|i: int|
        0 <= i < fetches.len() - 1 ==> prefix_of(#[trigger] fetches[i], fetches[i + 1])
}

/// All lines emitted when the fetches in `fetches` are shown, in order,
/// to a tailer whose count starts at `count`.
pub open spec fn spec_run_emitted(count: nat, fetches: Seq<Seq<Seq<char>>>) -> Seq<Seq<char>>
    decreases fetches.len(),
{
    if fetches.len() == 0 {
        Seq::empty()
    } else {
        spec_tail_delta(count, fetches[0]) + spec_run_emitted(
            spec_tail_next(count, fetches[0].len()),
            fetches.skip(1),
        )
    }
}

/// The first element of a chain is a prefix of the last.
proof fn lemma_chain_first_prefix_last(fetches: Seq<Seq<Seq<char>>>)
    requires
        chain_of_fetches(fetches),
        fetches.len() > 0,
    ensures
        prefix_of(fetches[0], fetches.last()),
    decreases fetches.len(),
{
    if fetches.len() == 1 {
        assert(fetches[0].take(fetches[0].len() as int) =~= fetches[0]);
    } else {
        let rest = fetches.skip(1);
        assert(chain_of_fetches(rest)) by {
            assert forall|i: int| 0 <= i < rest.len() - 1 implies prefix_of(
                #[trigger] rest[i],
                rest[i + 1],
            ) by {
                assert(rest[i] == fetches[i + 1]);
                assert(rest[i + 1] == fetches[i + 2]);
            }
        }
        lemma_chain_first_prefix_last(rest);
        // prefix_of(fetches[0], fetches[1]) and prefix_of(fetches[1], last)
        assert(rest[0] == fetches[1]);
        assert(prefix_of(fetches[0], fetches[1]));
        let a = fetches[0];
        let b = fetches[1];
        let c = fetches.last();
        assert(rest.last() == c);
        assert(a.take(a.len() as int) =~= a);
        assert(a =~= c.take(a.len() as int)) by {
            assert(forall|k: int|
                0 <= k < a.len() ==> a[k] == b.take(a.len() as int)[k] && b[k] == c.take(
                    b.len() as int,
                )[k]);
        }
    }
}

/// Monotonic tailing: show a tailer a run of log fetches in which each
/// fetch extends the one before; then the lines it emits, concatenated
/// over the run, are exactly the lines of the final fetch past its
/// starting count. Started at zero, the tailer thus reproduces the
/// final log content, with nothing duplicated and nothing dropped. A
/// shrinking fetch, which `spec_tail_delta` answers with the empty
/// delta, is covered separately by `lemma_shrink_emits_nothing`.
pub proof fn lemma_monotonic_tailing(count: nat, fetches: Seq<Seq<Seq<char>>>)
    requires
        chain_of_fetches(fetches),
        fetches.len() > 0,
        count <= fetches[0].len(),
    ensures
        spec_run_emitted(count, fetches) == fetches.last().skip(count as int),
    decreases fetches.len(),
{
    let f0 = fetches[0];
    let last = fetches.last();
    lemma_chain_first_prefix_last(fetches);
    if fetches.len() == 1 {
        assert(spec_run_emitted(f0.len(), fetches.skip(1)) == Seq::<Seq<char>>::empty());
        assert(spec_tail_delta(count, f0) + Seq::<Seq<char>>::empty() =~= f0.skip(count as int));
    } else {
        let rest = fetches.skip(1);
        assert(chain_of_fetches(rest)) by {
            assert forall|i: int| 0 <= i < rest.len() - 1 implies prefix_of(
                #[trigger] rest[i],
                rest[i + 1],
            ) by {
                assert(rest[i] == fetches[i + 1]);
                assert(rest[i + 1] == fetches[i + 2]);
            }
        }
        assert(prefix_of(f0, fetches[1]));
        assert(rest[0] == fetches[1]);
        lemma_monotonic_tailing(f0.len(), rest);
        assert(rest.last() == last);
        // emitted = f0.skip(count) + last.skip(f0.len()); stitch the two
        // suffixes together along the prefix relation.
        assert(spec_tail_delta(count, f0) + last.skip(f0.len() as int) =~= last.skip(
            count as int,
        )) by {
            assert(forall|k: int| 0 <= k < f0.len() ==> f0[k] == last.take(f0.len() as int)[k]);
        }
    }
}

/// The shrink tolerance: a fetch with fewer lines than already emitted
/// produces no output at all and leaves the count unchanged.
pub proof fn lemma_shrink_emits_nothing(count: nat, lines: Seq<Seq<char>>)
    requires
        lines.len() < count,
    ensures
        spec_tail_delta(count, lines) == Seq::<Seq<char>>::empty(),
        spec_tail_next(count, lines.len()) == count,
{
}

} // verus!

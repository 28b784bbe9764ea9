//! Client-side filtering of build lists, and the parameters for
//! re-triggering a build. The remote list endpoint cannot filter by
//! user or free-text workflow name, so those filters run here, over
//! the fetched page; when they do, more builds are fetched up front so
//! enough survive the cut.

use vstd::prelude::*;

use crate::common::spec_matches_user;
use crate::strutil::{contains_chars, lower_of, spec_contains, str_chars, to_lowercase_str};
use crate::types::{Build, TriggerParams};

verus! {

/// The first `limit` elements of a sequence, or all of it when it is
/// shorter.
pub open spec fn spec_limited<A>(s: Seq<A>, limit: int) -> Seq<A> {
    if s.len() <= limit {
        s
    } else {
        s.take(limit)
    }
}

/// Whether one build survives the client-side filters: the user filter
/// (the current user, or a named one), the free-text workflow filter,
/// and the time threshold.
pub open spec fn spec_build_kept(
    b: Build,
    me_user: Option<&str>,
    me_github: Option<&str>,
    triggered_by: Option<&str>,
    workflow_contains: Option<&str>,
    since: Option<i64>,
) -> bool {
    (match me_user {
        Some(u) => match b.triggered_by {
            Some(t) => spec_matches_user(
                t@,
                u@,
                match me_github {
                    Some(g) => Some(g@),
                    None => None,
                },
            ),
            None => false,
        },
        None => match triggered_by {
            Some(u) => match b.triggered_by {
                Some(t) => spec_contains(lower_of(t@), lower_of(u@)),
                None => false,
            },
            None => true,
        },
    }) && (match workflow_contains {
        Some(p) => spec_contains(lower_of(b.triggered_workflow@), lower_of(p@)),
        None => true,
    }) && (match since {
        Some(threshold) => b.triggered_at >= threshold,
        None => true,
    })
}

/// How many builds to request when filters run client-side: four times
/// the display limit, and never more than the remote page maximum of
/// fifty.
pub fn compute_fetch_limit(limit: u32, client_side_filtering: bool) -> (r: u32)
    ensures
        client_side_filtering ==> r == (if limit * 4 <= u32::MAX {
            if limit * 4 < 50 {
                (limit * 4) as u32
            } else {
                50u32
            }
        } else {
            50u32
        }),
        !client_side_filtering ==> r == (if limit < 50 {
            limit
        } else {
            50u32
        }),
{
    if client_side_filtering {
        let scaled = limit.checked_mul(4).unwrap_or(u32::MAX);
        if scaled < 50 {
            scaled
        } else {
            50
        }
    } else {
        if limit < 50 {
            limit
        } else {
            50
        }
    }
}

/// Apply the client-side filters to a fetched page of builds and keep
/// the first `limit` survivors, in order.
#[verifier::loop_isolation(false)]
pub fn filter_builds(
    builds: Vec<Build>,
    me_user: Option<&str>,
    me_github: Option<&str>,
    triggered_by: Option<&str>,
    workflow_contains: Option<&str>,
    since: Option<i64>,
    limit: u32,
) -> (r: Vec<Build>)
    ensures
        r@ == spec_limited(
            builds@.filter(
                |b: Build|
                    spec_build_kept(b, me_user, me_github, triggered_by, workflow_contains, since),
            ),
            limit as int,
        ),
{
    let ghost orig = builds@;
    let orig_len: usize = builds.len();
    let ghost pred = |b: Build|
        spec_build_kept(b, me_user, me_github, triggered_by, workflow_contains, since);
    let mut rest = builds;
    let mut r: Vec<Build> = Vec::new();
    let mut i: usize = 0;
    proof {
        reveal_with_fuel(Seq::<_>::filter, 2);
        assert(orig.take(0) =~= Seq::<Build>::empty());
        assert(r@ =~= Seq::<Build>::empty().filter(pred));
    }
    while rest.len() > 0
        invariant
            orig.len() == orig_len,
            i <= orig.len(),
            rest@ == orig.skip(i as int),
            r@.len() <= limit,
            r@ == spec_limited(orig.take(i as int).filter(pred), limit as int),
        decreases rest@.len(),
    {
        let b = remove_first(&mut rest);
        proof {
            assert(b == orig[i as int]);
            assert(orig.skip(i as int).skip(1) =~= orig.skip(i + 1));
        }
        let keep_user = match me_user {
            Some(u) => match &b.triggered_by {
                Some(t) => crate::common::matches_user(t.as_str(), u, me_github),
                None => false,
            },
            None => match triggered_by {
                Some(u) => match &b.triggered_by {
                    Some(t) => {
                        let tl = to_lowercase_str(t.as_str());
                        let ul = to_lowercase_str(u);
                        let tc = str_chars(tl.as_str());
                        let uc = str_chars(ul.as_str());
                        contains_chars(&tc, &uc)
                    },
                    None => false,
                },
                None => true,
            },
        };
        let keep_workflow = match workflow_contains {
            Some(p) => {
                let wl = to_lowercase_str(b.triggered_workflow.as_str());
                let pl = to_lowercase_str(p);
                let wc = str_chars(wl.as_str());
                let pc = str_chars(pl.as_str());
                contains_chars(&wc, &pc)
            },
            None => true,
        };
        let keep_since = match since {
            Some(threshold) => b.triggered_at >= threshold,
            None => true,
        };
        let keep = keep_user && keep_workflow && keep_since;
        proof {
            reveal_with_fuel(Seq::<_>::filter, 2);
            let prev = orig.take(i as int);
            let one = seq![orig[i as int]];
            assert(orig.take(i + 1) =~= prev + one);
            Seq::<Build>::filter_distributes_over_add(prev, one, pred);
            assert(one.drop_last() =~= Seq::<Build>::empty());
            assert(Seq::<Build>::empty().filter(pred) =~= Seq::<Build>::empty());
            if pred(orig[i as int]) {
                assert(one.filter(pred) =~= one);
            } else {
                assert(one.filter(pred) =~= Seq::<Build>::empty());
            }
            assert(keep == pred(orig[i as int]));
        }
        if keep && r.len() < limit as usize {
            r.push(b);
        } else {
            proof {
                let filtered = orig.take(i as int).filter(pred);
                if keep {
                    // The limit is reached: the next survivor is cut.
                    assert(filtered.len() >= limit);
                    assert((filtered + seq![orig[i as int]]).take(limit as int)
                        =~= filtered.take(limit as int));
                }
            }
        }
        i = i + 1;
    }
    proof {
        assert(orig.take(orig.len() as int) =~= orig);
    }
    r
}

/// Take the first element out of a vector.
pub(crate) fn remove_first<A>(v: &mut Vec<A>) -> (r: A)
    requires
        old(v)@.len() > 0,
    ensures
        r == old(v)@[0],
        final(v)@ == old(v)@.skip(1),
{
    let r = v.remove(0);
    proof {
        assert(v@ =~= old(v)@.skip(1));
    }
    r
}

/// The parameters that re-trigger a build like-for-like: same branch,
/// same workflow, same commit message, no extra environment.
pub fn rebuild_params(build: &Build) -> (p: TriggerParams)
    ensures
        p.branch matches Some(b) && b@ == build.branch@,
        p.workflow_id@ == build.triggered_workflow@,
        p.commit_message == build.commit_message,
        p.environments@.len() == 0,
{
    TriggerParams {
        branch: Some(build.branch.clone()),
        workflow_id: build.triggered_workflow.clone(),
        commit_message: match &build.commit_message {
            Some(m) => Some(m.clone()),
            None => None,
        },
        environments: Vec::new(),
    }
}

} // verus!

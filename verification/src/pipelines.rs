//! Client-side filtering of pipeline lists. The remote endpoint does
//! not filter by status or user at all, so status, user and time
//! filters all run here over the fetched page.

use vstd::prelude::*;

use crate::builds::spec_limited;
use crate::common::spec_matches_user;
use crate::strutil::{contains_chars, lower_of, spec_contains, str_chars, to_lowercase_str};
use crate::types::Pipeline;

verus! {

/// Whether one pipeline survives the client-side filters: the status
/// filter, the user filter (the current user, or a named one), and the
/// time threshold; a pipeline without a trigger time fails any time
/// threshold.
pub open spec fn spec_pipeline_kept(
    p: Pipeline,
    status: Option<i32>,
    me_user: Option<&str>,
    me_github: Option<&str>,
    triggered_by: Option<&str>,
    since: Option<i64>,
) -> bool {
    (match status {
        Some(code) => p.status == code,
        None => true,
    }) && (match me_user {
        Some(u) => match p.triggered_by {
            Some(t) => spec_matches_user(
                t@,
                u@,
                match me_github {
                    Some(g) => Some(g@),
                    None => None,
                },
            ),
            None => false,
        },
        None => match triggered_by {
            Some(u) => match p.triggered_by {
                Some(t) => spec_contains(lower_of(t@), lower_of(u@)),
                None => false,
            },
            None => true,
        },
    }) && (match since {
        Some(threshold) => match p.triggered_at {
            Some(at) => at >= threshold,
            None => false,
        },
        None => true,
    })
}

/// Apply the client-side filters to a fetched page of pipelines and
/// keep the first `limit` survivors, in order.
#[verifier::loop_isolation(false)]
pub fn filter_pipelines(
    pipelines: Vec<Pipeline>,
    status: Option<i32>,
    me_user: Option<&str>,
    me_github: Option<&str>,
    triggered_by: Option<&str>,
    since: Option<i64>,
    limit: u32,
) -> (r: Vec<Pipeline>)
    ensures
        r@ == spec_limited(
            pipelines@.filter(
                |p: Pipeline|
                    spec_pipeline_kept(p, status, me_user, me_github, triggered_by, since),
            ),
            limit as int,
        ),
{
    let ghost orig = pipelines@;
    let orig_len: usize = pipelines.len();
    let ghost pred = |p: Pipeline|
        spec_pipeline_kept(p, status, me_user, me_github, triggered_by, since);
    let mut rest = pipelines;
    let mut r: Vec<Pipeline> = Vec::new();
    let mut i: usize = 0;
    proof {
        reveal_with_fuel(Seq::<_>::filter, 2);
        assert(orig.take(0) =~= Seq::<Pipeline>::empty());
        assert(r@ =~= Seq::<Pipeline>::empty().filter(pred));
    }
    while rest.len() > 0
        invariant
            orig.len() == orig_len,
            i <= orig.len(),
            rest@ == orig.skip(i as int),
            r@.len() <= limit,
            r@ == spec_limited(orig.take(i as int).filter(pred), limit as int),
        decreases rest@.len(),
    {
        let p = crate::builds::remove_first(&mut rest);
        proof {
            assert(p == orig[i as int]);
            assert(orig.skip(i as int).skip(1) =~= orig.skip(i + 1));
        }
        let keep_status = match status {
            Some(code) => p.status == code,
            None => true,
        };
        let keep_user = match me_user {
            Some(u) => match &p.triggered_by {
                Some(t) => crate::common::matches_user(t.as_str(), u, me_github),
                None => false,
            },
            None => match triggered_by {
                Some(u) => match &p.triggered_by {
                    Some(t) => {
                        let tl = to_lowercase_str(t.as_str());
                        let ul = to_lowercase_str(u);
                        let tc = str_chars(tl.as_str());
                        let uc = str_chars(ul.as_str());
                        contains_chars(&tc, &uc)
                    },
                    None => false,
                },
                None => true,
            },
        };
        let keep_since = match since {
            Some(threshold) => match p.triggered_at {
                Some(at) => at >= threshold,
                None => false,
            },
            None => true,
        };
        let keep = keep_status && keep_user && keep_since;
        proof {
            reveal_with_fuel(Seq::<_>::filter, 2);
            let prev = orig.take(i as int);
            let one = seq![orig[i as int]];
            assert(orig.take(i + 1) =~= prev + one);
            Seq::<Pipeline>::filter_distributes_over_add(prev, one, pred);
            assert(one.drop_last() =~= Seq::<Pipeline>::empty());
            assert(Seq::<Pipeline>::empty().filter(pred) =~= Seq::<Pipeline>::empty());
            if pred(orig[i as int]) {
                assert(one.filter(pred) =~= one);
            } else {
                assert(one.filter(pred) =~= Seq::<Pipeline>::empty());
            }
            assert(keep == pred(orig[i as int]));
        }
        if keep && r.len() < limit as usize {
            r.push(p);
        } else {
            proof {
                let filtered = orig.take(i as int).filter(pred);
                if keep {
                    assert(filtered.len() >= limit);
                    assert((filtered + seq![orig[i as int]]).take(limit as int)
                        =~= filtered.take(limit as int));
                }
            }
        }
        i = i + 1;
    }
    proof {
        assert(orig.take(orig.len() as int) =~= orig);
    }
    r
}

} // verus!

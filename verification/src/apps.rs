//! Client-side handling of app lists: the name filter of the listing
//! command, and the by-name lookup used when an argument is not a
//! slug.

use vstd::prelude::*;

use crate::builds::spec_limited;
use crate::strutil::{contains_chars, lower_of, spec_contains, str_chars, to_lowercase_str};
use crate::types::App;

verus! {

/// Whether an app's title holds the filter text, case-insensitively.
pub open spec fn spec_app_title_matches(a: App, filter: &str) -> bool {
    spec_contains(lower_of(a.title@), lower_of(filter@))
}

/// Apply the listing command's name filter: with a filter, every app
/// whose title holds the text, case-insensitively; without one, the
/// first `limit` apps.
#[verifier::loop_isolation(false)]
pub fn filter_apps(apps: Vec<App>, filter: Option<&str>, limit: u32) -> (r: Vec<App>)
    ensures
        match filter {
            Some(f) => r@ == apps@.filter(|a: App| spec_app_title_matches(a, f)),
            None => r@ == spec_limited(apps@, limit as int),
        },
{
    let ghost orig = apps@;
    let orig_len: usize = apps.len();
    let mut rest = apps;
    let mut r: Vec<App> = Vec::new();
    let mut i: usize = 0;
    match filter {
        Some(f) => {
            let ghost pred = |a: App| spec_app_title_matches(a, f);
            proof {
                reveal_with_fuel(Seq::<_>::filter, 2);
                assert(orig.take(0) =~= Seq::<App>::empty());
                assert(r@ =~= Seq::<App>::empty().filter(pred));
            }
            let fl = to_lowercase_str(f);
            let fc = str_chars(fl.as_str());
            while rest.len() > 0
                invariant
                    orig.len() == orig_len,
                    i <= orig.len(),
                    rest@ == orig.skip(i as int),
                    fc@ == lower_of(f@),
                    r@ == orig.take(i as int).filter(pred),
                decreases rest@.len(),
            {
                let a = crate::builds::remove_first(&mut rest);
                proof {
                    assert(a == orig[i as int]);
                    assert(orig.skip(i as int).skip(1) =~= orig.skip(i + 1));
                }
                let tl = to_lowercase_str(a.title.as_str());
                let tc = str_chars(tl.as_str());
                let keep = contains_chars(&tc, &fc);
                proof {
                    reveal_with_fuel(Seq::<_>::filter, 2);
                    let prev = orig.take(i as int);
                    let one = seq![orig[i as int]];
                    assert(orig.take(i + 1) =~= prev + one);
                    Seq::<App>::filter_distributes_over_add(prev, one, pred);
                    assert(one.drop_last() =~= Seq::<App>::empty());
                    assert(Seq::<App>::empty().filter(pred) =~= Seq::<App>::empty());
                    if pred(orig[i as int]) {
                        assert(one.filter(pred) =~= one);
                    } else {
                        assert(one.filter(pred) =~= Seq::<App>::empty());
                    }
                    assert(keep == pred(orig[i as int]));
                }
                if keep {
                    r.push(a);
                }
                i = i + 1;
            }
            proof {
                assert(orig.take(orig.len() as int) =~= orig);
            }
            r
        },
        None => {
            while rest.len() > 0 && i < limit as usize
                invariant
                    orig.len() == orig_len,
                    i <= orig.len(),
                    i <= limit,
                    rest@ == orig.skip(i as int),
                    r@ == orig.take(i as int),
                decreases rest@.len(),
            {
                let a = crate::builds::remove_first(&mut rest);
                proof {
                    assert(a == orig[i as int]);
                    assert(orig.skip(i as int).skip(1) =~= orig.skip(i + 1));
                }
                r.push(a);
                i = i + 1;
                proof {
                    assert(r@ =~= orig.take(i as int));
                }
            }
            proof {
                if i == orig.len() {
                    assert(orig.take(i as int) =~= orig);
                }
                if i == limit {
                    assert(orig.take(i as int) =~= spec_limited(orig, limit as int));
                }
            }
            r
        },
    }
}

/// Find the first app whose title holds the given name,
/// case-insensitively.
#[verifier::loop_isolation(false)]
pub fn find_app_by_name(apps: Vec<App>, name: &str) -> (r: Option<App>)
    ensures
        match r {
            Some(a) => exists|i: int|
                0 <= i < apps@.len() && apps@[i] == a && spec_app_title_matches(
                    #[trigger] apps@[i],
                    name,
                ) && (forall|j: int|
                    0 <= j < i ==> !spec_app_title_matches(#[trigger] apps@[j], name)),
            None => forall|j: int|
                0 <= j < apps@.len() ==> !spec_app_title_matches(#[trigger] apps@[j], name),
        },
{
    let ghost orig = apps@;
    let orig_len: usize = apps.len();
    let mut rest = apps;
    let mut i: usize = 0;
    let nl = to_lowercase_str(name);
    let nc = str_chars(nl.as_str());
    while rest.len() > 0
        invariant
            orig.len() == orig_len,
            i <= orig.len(),
            rest@ == orig.skip(i as int),
            nc@ == lower_of(name@),
            forall|j: int| 0 <= j < i ==> !spec_app_title_matches(#[trigger] orig[j], name),
        decreases rest@.len(),
    {
        let a = crate::builds::remove_first(&mut rest);
        proof {
            assert(a == orig[i as int]);
            assert(orig.skip(i as int).skip(1) =~= orig.skip(i + 1));
        }
        let tl = to_lowercase_str(a.title.as_str());
        let tc = str_chars(tl.as_str());
        if contains_chars(&tc, &nc) {
            return Some(a);
        }
        i = i + 1;
    }
    None
}

} // verus!

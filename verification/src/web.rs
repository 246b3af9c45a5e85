//! Interpretation of the web (DOM) media-query readings.
//!
//! In a browser each preference is watched through media queries. A
//! boolean preference uses one query; a multi-valued preference uses one
//! query per known keyword plus a catch-all that matches exactly when none
//! of the known ones does, so that future keywords read as no preference.
//! The DOM setup and the event listeners are the driver's side; which value
//! a set of match flags means is decided here.

use vstd::prelude::*;

verus! {

/// The value a boolean media query means: `truthy` when it matches,
/// `falsy` otherwise.
pub fn bool_query_value<T: Copy>(matches: bool, truthy: T, falsy: T) -> (r: T)
    ensures
        r == (if matches {
            truthy
        } else {
            falsy
        }),
{
    if matches {
        truthy
    } else {
        falsy
    }
}

/// The first value among `queries` whose match flag is set, or `default`
/// when none matches.
pub open spec fn spec_first_match<T>(queries: Seq<(bool, T)>, default: T) -> T
    decreases queries.len(),
{
    if queries.len() == 0 {
        default
    } else if queries.first().0 {
        queries.first().1
    } else {
        spec_first_match(queries.drop_first(), default)
    }
}

/// The value a multi-valued media query means: the value of the first
/// sub-query that currently matches, or the default when none does.
pub fn multi_query_value<T: Copy>(queries: &Vec<(bool, T)>, default: T) -> (r: T)
    ensures
        r == spec_first_match(queries@, default),
{
    let mut i: usize = 0;
    proof {
        assert(queries@.skip(0) =~= queries@);
    }
    while i < queries.len()
        invariant
            i <= queries@.len(),
            spec_first_match(queries@, default) == spec_first_match(
                queries@.skip(i as int),
                default,
            ),
        decreases queries@.len() - i,
    {
        proof {
            assert(queries@.skip(i as int).first() == queries@[i as int]);
            assert(queries@.skip(i as int).drop_first() =~= queries@.skip(i + 1));
        }
        if queries[i].0 {
            return queries[i].1;
        }
        i = i + 1;
    }
    proof {
        assert(queries@.skip(queries@.len() as int).len() == 0);
    }
    default
}

} // verus!

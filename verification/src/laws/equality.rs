//! Equality, strict and loose, does not depend on the side a value is
//! on.

use crate::kernel::Oracle;
use crate::logic::{loose_equal, number_eq, strict_equal};
use crate::value::{found_member_leads, leading_member_is_found, leads, member, Json, Number};
use vstd::prelude::*;

verus! {

/// Two numbers are equal whichever comes first.
pub proof fn number_equality_is_symmetric(o: Oracle, x: Number, y: Number)
    ensures
        number_eq(o, x, y) == number_eq(o, y, x),
{
}

/// Where `a` strictly equals `b`, `b` strictly equals `a`.
proof fn strict_equality_turns(o: Oracle, a: Json, b: Json)
    requires
        strict_equal(o, a, b),
    ensures
        strict_equal(o, b, a),
    decreases a,
{
    match (a, b) {
        (Json::Array(xs), Json::Array(ys)) => {
            assert forall|i: int| 0 <= i < ys.len() implies strict_equal(o, #[trigger] ys[i], xs[i]) by {
                assert(strict_equal(o, xs[i], ys[i]));
                strict_equality_turns(o, xs[i], ys[i]);
            }
        },
        (Json::Object(xs), Json::Object(ys)) => {
            assert forall|j: int| 0 <= j < ys.len() && leads(ys, j) implies match member(
                xs,
                (#[trigger] ys[j]).0,
            ) {
                Some(w) => strict_equal(o, ys[j].1, w),
                None => false,
            } by {
                let key = ys[j].0;
                found_member_leads(xs, key);
                let w = member(xs, key)->0;
                let i = choose|i: int|
                    0 <= i < xs.len() && leads(xs, i) && (#[trigger] xs[i]) == (key, w);
                leading_member_is_found(ys, j);
                assert(strict_equal(o, xs[i].1, ys[j].1));
                strict_equality_turns(o, xs[i].1, ys[j].1);
            }
            assert forall|i: int| 0 <= i < xs.len() implies member(ys, (#[trigger] xs[i]).0)
                is Some by {
                let key = xs[i].0;
                found_member_leads(xs, key);
                let w = member(xs, key)->0;
                let first = choose|first: int|
                    0 <= first < xs.len() && leads(xs, first) && (#[trigger] xs[first]) == (key, w);
                assert(member(ys, xs[first].0) is Some);
            }
        },
        _ => {},
    }
}

/// Strict equality is symmetric.
pub proof fn strict_equality_is_symmetric(o: Oracle, a: Json, b: Json)
    ensures
        strict_equal(o, a, b) == strict_equal(o, b, a),
{
    if strict_equal(o, a, b) {
        strict_equality_turns(o, a, b);
    }
    if strict_equal(o, b, a) {
        strict_equality_turns(o, b, a);
    }
}

/// Loose equality is symmetric.
pub proof fn loose_equality_is_symmetric(o: Oracle, a: Json, b: Json)
    ensures
        loose_equal(o, a, b) == loose_equal(o, b, a),
{
    strict_equality_is_symmetric(o, a, b);
}

} // verus!

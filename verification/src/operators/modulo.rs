//! `%`: the remainder of a division.

use crate::kernel::{answers, is_kernel, ArithOp, Oracle, Query, Reply};
use crate::logic::{coerce_to_double, combine, combined, finite_number, number_or_null, to_double};
use crate::value::{jsons_of, Json, Value};
use vstd::prelude::*;

verus! {

/// The remainder after the first operand is divided by the second, both
/// as doubles. The value is `null` where an operand is missing or has no
/// number, and where the remainder is not finite.
pub open spec fn value(o: Oracle, vals: Seq<Json>) -> Json {
    if vals.len() < 2 {
        Json::Null
    } else {
        number_or_null(
            combined(o, ArithOp::Rem, to_double(o, vals[0]), to_double(o, vals[1])),
        )
    }
}

/// %, finds the remainder after the first argument is divided by the second argument.
pub fn compute<K: Fn(Query) -> Reply>(args: &[Value], k: &K) -> (r: Value)
    requires
        is_kernel(*k),
    ensures
        r@ == value(answers(*k), jsons_of(args@)),
{
    if args.len() < 2 {
        return Value::Null;
    }
    let a = coerce_to_double(&args[0], k);
    let b = coerce_to_double(&args[1], k);
    finite_number(combine(k, ArithOp::Rem, a, b))
}

} // verus!

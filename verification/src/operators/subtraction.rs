//! `-`: the difference of two operands, or the negative of one.

use crate::kernel::{answers, is_kernel, negate, negated, ArithOp, Oracle, Query, Reply};
use crate::logic::{coerce_to_double, combine, combined, finite_number, number_or_null, to_double};
use crate::value::{jsons_of, Json, Value};
use vstd::prelude::*;

verus! {

/// With two operands, the first minus the second; with one, its
/// negative. The value is `null` where there is no operand, one has no
/// number, or the result is not finite.
pub open spec fn value(o: Oracle, vals: Seq<Json>) -> Json {
    if vals.len() == 0 {
        Json::Null
    } else if vals.len() == 1 {
        number_or_null(
            match to_double(o, vals[0]) {
                Some(b) => Some(negated(b)),
                None => None,
            },
        )
    } else {
        number_or_null(
            combined(o, ArithOp::Sub, to_double(o, vals[0]), to_double(o, vals[1])),
        )
    }
}

/// Evaluates the operator on the values of its operands.
pub fn compute<K: Fn(Query) -> Reply>(args: &[Value], k: &K) -> (r: Value)
    requires
        is_kernel(*k),
    ensures
        r@ == value(answers(*k), jsons_of(args@)),
{
    if args.len() == 0 {
        return Value::Null;
    }
    let a = coerce_to_double(&args[0], k);
    if args.len() == 1 {
        return finite_number(
            match a {
                Some(b) => Some(negate(b)),
                None => None,
            },
        );
    }
    let b = coerce_to_double(&args[1], k);
    finite_number(combine(k, ArithOp::Sub, a, b))
}

} // verus!

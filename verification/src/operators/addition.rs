//! `+`: the sum of any number of operands.

use crate::kernel::{answers, is_kernel, ArithOp, Oracle, Query, Reply};
use crate::logic::{coerce_to_double, combine, combined, finite_number, number_or_null, to_double};
use crate::value::{jsons_of, Json, Value};
use vstd::prelude::*;

verus! {

/// The sum of the operands as doubles, added from the first on, starting
/// from zero. There is none where an operand has no number.
pub open spec fn total(o: Oracle, vals: Seq<Json>) -> Option<u64>
    decreases vals.len(),
{
    if vals.len() == 0 {
        Some(0u64)
    } else {
        combined(o, ArithOp::Add, total(o, vals.drop_last()), to_double(o, vals.last()))
    }
}

/// The sum of the operands; `null` where one of them has no number or
/// the sum is not finite.
pub open spec fn value(o: Oracle, vals: Seq<Json>) -> Json {
    number_or_null(total(o, vals))
}

/// Evaluates the operator on the values of its operands.
pub fn compute<K: Fn(Query) -> Reply>(args: &[Value], k: &K) -> (r: Value)
    requires
        is_kernel(*k),
    ensures
        r@ == value(answers(*k), jsons_of(args@)),
{
    let ghost vals = jsons_of(args@);
    let mut sum: Option<u64> = Some(0);
    let mut i: usize = 0;
    while i < args.len()
        invariant
            i <= args.len(),
            is_kernel(*k),
            vals == jsons_of(args@),
            sum == total(answers(*k), vals.take(i as int)),
        decreases args.len() - i,
    {
        proof {
            assert(vals.take(i + 1).drop_last() =~= vals.take(i as int));
        }
        sum = combine(k, ArithOp::Add, sum, coerce_to_double(&args[i], k));
        i = i + 1;
    }
    assert(vals.take(args.len() as int) =~= vals);
    finite_number(sum)
}

} // verus!

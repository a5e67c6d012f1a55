//! `*`: the product of one or more operands.

use crate::kernel::{answers, is_kernel, ArithOp, Oracle, Query, Reply};
use crate::logic::{coerce_to_double, combine, combined, finite_number, number_or_null, to_double};
use crate::value::{jsons_of, Json, Value};
use vstd::prelude::*;

verus! {

/// The product of the operands as doubles, multiplied from the first on.
/// There is none where there is no operand or one has no number.
pub open spec fn product(o: Oracle, vals: Seq<Json>) -> Option<u64>
    decreases vals.len(),
{
    if vals.len() == 0 {
        None
    } else if vals.len() == 1 {
        to_double(o, vals[0])
    } else {
        combined(o, ArithOp::Mul, product(o, vals.drop_last()), to_double(o, vals.last()))
    }
}

/// The product of the operands; `null` where there is none, one of them
/// has no number or the product is not finite.
pub open spec fn value(o: Oracle, vals: Seq<Json>) -> Json {
    number_or_null(product(o, vals))
}

/// Evaluates the operator on the values of its operands.
pub fn compute<K: Fn(Query) -> Reply>(args: &[Value], k: &K) -> (r: Value)
    requires
        is_kernel(*k),
    ensures
        r@ == value(answers(*k), jsons_of(args@)),
{
    let ghost vals = jsons_of(args@);
    if args.len() == 0 {
        return Value::Null;
    }
    let mut acc: Option<u64> = coerce_to_double(&args[0], k);
    let mut i: usize = 1;
    assert(vals.take(1)[0] == vals[0]);
    while i < args.len()
        invariant
            1 <= i <= args.len(),
            is_kernel(*k),
            vals == jsons_of(args@),
            acc == product(answers(*k), vals.take(i as int)),
        decreases args.len() - i,
    {
        proof {
            assert(vals.take(i + 1).drop_last() =~= vals.take(i as int));
        }
        acc = combine(k, ArithOp::Mul, acc, coerce_to_double(&args[i], k));
        i = i + 1;
    }
    assert(vals.take(args.len() as int) =~= vals);
    finite_number(acc)
}

} // verus!

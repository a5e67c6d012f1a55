//! `/`: the quotient of two numbers.

use super::{operands, partial_operands, read_count, Operator};
use crate::data::Data;
use crate::expression::{exprs_of, outcome_of, partial_result, result, Expression, PartialResult};
use crate::kernel::{answers, is_kernel, Oracle, Query, Reply};
use crate::kernel::ArithOp;
use crate::logic::{coerce_to_double, combine, combined, finite_number, number_or_null, to_double};
use crate::value::{jsons_of, Json, Value};
use vstd::prelude::*;

verus! {

/// The quotient of the first operand by the second, both as doubles.
/// The value is `null` where an operand is missing or has no number, and
/// where the quotient is not finite.
pub open spec fn value(o: Oracle, vals: Seq<Json>) -> Json {
    if vals.len() < 2 {
        Json::Null
    } else {
        number_or_null(
            combined(o, ArithOp::Div, to_double(o, vals[0]), to_double(o, vals[1])),
        )
    }
}

/// The operator on the values of its operands.
pub fn apply<K: Fn(Query) -> Reply>(vals: &[Value], k: &K) -> (r: Value)
    requires
        is_kernel(*k),
    ensures
        r@ == value(answers(*k), jsons_of(vals@)),
{
    if vals.len() < 2 {
        return Value::Null;
    }
    let a = coerce_to_double(&vals[0], k);
    let b = coerce_to_double(&vals[1], k);
    finite_number(combine(k, ArithOp::Div, a, b))
}

/// "/", takes two arguments that are coerced into numbers. Returns `Value::Null` if the
/// divisor is coerced to `0` or one argument cannot be coerced into a number.
pub fn compute<K: Fn(Query) -> Reply>(args: &[Expression], data: &Data, k: &K) -> (r: Value)
    requires
        is_kernel(*k),
    ensures
        r@ == result(answers(*k), Operator::Division, exprs_of(args@), data@),
    decreases args@, 3int,
{
    let vals = operands(args, data, k, read_count(Operator::Division, args.len()));
    apply(vals.as_slice(), k)
}

// Ambiguous as soon as one of the two operands is.
pub fn partial_compute<K: Fn(Query) -> Reply>(args: &[Expression], data: &Data, k: &K) -> (r:
    PartialResult)
    requires
        is_kernel(*k),
    ensures
        outcome_of(r) == partial_result(answers(*k), Operator::Division, exprs_of(args@), data@),
    decreases args@, 3int,
{
    match partial_operands(args, data, k, read_count(Operator::Division, args.len())) {
        Ok(vals) => Ok(apply(vals.as_slice(), k)),
        Err(a) => Err(a),
    }
}

} // verus!

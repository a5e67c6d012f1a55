//! `===`: equality without coercion.

use super::{arg, operand, operands, partial_operands, read_count, Operator};
use crate::data::Data;
use crate::expression::{exprs_of, outcome_of, partial_result, result, Expression, PartialResult};
use crate::kernel::{answers, is_kernel, Oracle, Query, Reply};
use crate::logic::{is_strict_equal, strict_equal};
use crate::value::{jsons_of, Json, Value};
use vstd::prelude::*;

verus! {

/// Whether the first two operands are strictly equal. A missing operand
/// reads as `null`.
pub open spec fn value(o: Oracle, vals: Seq<Json>) -> Json {
    Json::Bool(strict_equal(o, arg(vals, 0), arg(vals, 1)))
}

/// The operator on the values of its operands.
pub fn apply<K: Fn(Query) -> Reply>(vals: &[Value], k: &K) -> (r: Value)
    requires
        is_kernel(*k),
    ensures
        r@ == value(answers(*k), jsons_of(vals@)),
{
    let null = Value::Null;
    let a = operand(vals, 0, &null);
    let b = operand(vals, 1, &null);
    Value::Bool(is_strict_equal(a, b, k))
}

/// Evaluates the operator on its arguments.
pub fn compute<K: Fn(Query) -> Reply>(args: &[Expression], data: &Data, k: &K) -> (r: Value)
    requires
        is_kernel(*k),
    ensures
        r@ == result(answers(*k), Operator::StrictEqual, exprs_of(args@), data@),
    decreases args@, 3int,
{
    let vals = operands(args, data, k, read_count(Operator::StrictEqual, args.len()));
    apply(vals.as_slice(), k)
}

// Ambiguous as soon as one of the two operands is.
pub fn partial_compute<K: Fn(Query) -> Reply>(args: &[Expression], data: &Data, k: &K) -> (r:
    PartialResult)
    requires
        is_kernel(*k),
    ensures
        outcome_of(r) == partial_result(answers(*k), Operator::StrictEqual, exprs_of(args@), data@),
    decreases args@, 3int,
{
    match partial_operands(args, data, k, read_count(Operator::StrictEqual, args.len())) {
        Ok(vals) => Ok(apply(vals.as_slice(), k)),
        Err(a) => Err(a),
    }
}

} // verus!

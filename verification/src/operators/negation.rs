//! `!`: logical negation.

use super::{arg, operand, operands, partial_operands, read_count, Operator};
use crate::data::Data;
use crate::expression::{exprs_of, outcome_of, partial_result, result, Expression, PartialResult};
use crate::kernel::{answers, is_kernel, Query, Reply};
use crate::logic::{is_truthy, truthy};
use crate::value::{jsons_of, Json, Value};
use vstd::prelude::*;

verus! {

/// Whether the operand counts as false. A missing operand reads as
/// `null`.
pub open spec fn value(vals: Seq<Json>) -> Json {
    Json::Bool(!truthy(arg(vals, 0)))
}

/// The operator on the value of its operand.
pub fn apply(vals: &[Value]) -> (r: Value)
    ensures
        r@ == value(jsons_of(vals@)),
{
    let null = Value::Null;
    let a = operand(vals, 0, &null);
    Value::Bool(!is_truthy(a))
}

/// Logical negation ("not"). Takes just one argument.
pub fn compute<K: Fn(Query) -> Reply>(args: &[Expression], data: &Data, k: &K) -> (r: Value)
    requires
        is_kernel(*k),
    ensures
        r@ == result(answers(*k), Operator::Negation, exprs_of(args@), data@),
    decreases args@, 3int,
{
    let vals = operands(args, data, k, read_count(Operator::Negation, args.len()));
    apply(vals.as_slice())
}

// Ambiguous where the argument is.
pub fn partial_compute<K: Fn(Query) -> Reply>(args: &[Expression], data: &Data, k: &K) -> (r:
    PartialResult)
    requires
        is_kernel(*k),
    ensures
        outcome_of(r) == partial_result(answers(*k), Operator::Negation, exprs_of(args@), data@),
    decreases args@, 3int,
{
    match partial_operands(args, data, k, read_count(Operator::Negation, args.len())) {
        Ok(vals) => Ok(apply(vals.as_slice())),
        Err(a) => Err(a),
    }
}

} // verus!

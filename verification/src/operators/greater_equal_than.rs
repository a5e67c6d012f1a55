//! `>=`, and with three arguments "between, bounds included", read
//! downwards.

use super::{operands, partial_compute_plain, partial_compute_range, read_count, Operator};
use crate::data::Data;
use crate::expression::{exprs_of, outcome_of, partial_result, result, Expression, PartialResult};
use crate::kernel::{answers, is_kernel, Oracle, Query, Reply};
use crate::logic::less_equal;
use crate::value::{jsons_of, Json, Value};
use vstd::prelude::*;

verus! {

/// The relation that the operator chains: `x >= y`.
pub open spec fn related(o: Oracle, x: Json, y: Json) -> bool {
    less_equal(o, y, x)
}

/// With two operands, whether the first is at least the second. With
/// three, whether the first is at least the second and the second at
/// least the third. With fewer than two, `false`.
pub open spec fn value(o: Oracle, vals: Seq<Json>) -> Json {
    if vals.len() < 2 {
        Json::Bool(false)
    } else if vals.len() == 2 {
        Json::Bool(related(o, vals[0], vals[1]))
    } else {
        Json::Bool(related(o, vals[0], vals[1]) && related(o, vals[1], vals[2]))
    }
}

/// Whether `x >= y`.
pub fn is_related<K: Fn(Query) -> Reply>(x: &Value, y: &Value, k: &K) -> (r: bool)
    requires
        is_kernel(*k),
    ensures
        r == related(answers(*k), x@, y@),
{
    crate::logic::greater_equal_than(x, y, k)
}

/// The operator on the values of its operands.
pub fn apply<K: Fn(Query) -> Reply>(vals: &[Value], k: &K) -> (r: Value)
    requires
        is_kernel(*k),
    ensures
        r@ == value(answers(*k), jsons_of(vals@)),
{
    if vals.len() < 2 {
        Value::Bool(false)
    } else if vals.len() == 2 {
        Value::Bool(is_related(&vals[0], &vals[1], k))
    } else {
        Value::Bool(is_related(&vals[0], &vals[1], k) && is_related(&vals[1], &vals[2], k))
    }
}

/// Evaluates the operator on its arguments.
pub fn compute<K: Fn(Query) -> Reply>(args: &[Expression], data: &Data, k: &K) -> (r: Value)
    requires
        is_kernel(*k),
    ensures
        r@ == result(answers(*k), Operator::GreaterEqualThan, exprs_of(args@), data@),
    decreases args@, 3int,
{
    let vals = operands(args, data, k, read_count(Operator::GreaterEqualThan, args.len()));
    apply(vals.as_slice(), k)
}

// early returns false on obvious false conditions and returns Ambiguous on other Ambiguous cases
pub fn partial_compute<K: Fn(Query) -> Reply>(args: &[Expression], data: &Data, k: &K) -> (r:
    PartialResult)
    requires
        is_kernel(*k),
    ensures
        outcome_of(r) == partial_result(
            answers(*k),
            Operator::GreaterEqualThan,
            exprs_of(args@),
            data@,
        ),
    decreases args@, 3int,
{
    if args.len() >= 3 {
        partial_compute_range(Operator::GreaterEqualThan, args, data, k)
    } else {
        partial_compute_plain(Operator::GreaterEqualThan, args, data, k)
    }
}

} // verus!

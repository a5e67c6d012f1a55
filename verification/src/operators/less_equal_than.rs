//! `<=`, and with three arguments "between, bounds included".

use super::{operands, partial_compute_plain, partial_compute_range, read_count, Operator};
use crate::data::Data;
use crate::expression::{exprs_of, outcome_of, partial_result, result, Expression, PartialResult};
use crate::kernel::{answers, is_kernel, Oracle, Query, Reply};
use crate::logic::{between, less_equal};
use crate::value::{jsons_of, Json, Value};
use vstd::prelude::*;

verus! {

/// The relation that the operator chains: `x <= y`.
pub open spec fn related(o: Oracle, x: Json, y: Json) -> bool {
    less_equal(o, x, y)
}

/// With two operands, whether the first is at most the second. With
/// three, whether the second lies between the first and the third, the
/// bounds included. With fewer than two, `false`.
pub open spec fn value(o: Oracle, vals: Seq<Json>) -> Json {
    if vals.len() < 2 {
        Json::Bool(false)
    } else if vals.len() == 2 {
        Json::Bool(less_equal(o, vals[0], vals[1]))
    } else {
        Json::Bool(between(o, vals[0], vals[1], vals[2]))
    }
}

/// Whether `x <= y`.
pub fn is_related<K: Fn(Query) -> Reply>(x: &Value, y: &Value, k: &K) -> (r: bool)
    requires
        is_kernel(*k),
    ensures
        r == related(answers(*k), x@, y@),
{
    compute_less_equal_than(x, y, k)
}

/// The operator on the values of its operands.
pub fn apply<K: Fn(Query) -> Reply>(vals: &[Value], k: &K) -> (r: Value)
    requires
        is_kernel(*k),
    ensures
        r@ == value(answers(*k), jsons_of(vals@)),
{
    if vals.len() < 2 {
        Value::Bool(false)
    } else if vals.len() == 2 {
        Value::Bool(compute_less_equal_than(&vals[0], &vals[1], k))
    } else {
        Value::Bool(compute_between_inclusive(&vals[0], &vals[1], &vals[2], k))
    }
}

/// Evaluates the operator on its arguments.
pub fn compute<K: Fn(Query) -> Reply>(args: &[Expression], data: &Data, k: &K) -> (r: Value)
    requires
        is_kernel(*k),
    ensures
        r@ == result(answers(*k), Operator::LessEqualThan, exprs_of(args@), data@),
    decreases args@, 3int,
{
    let vals = operands(args, data, k, read_count(Operator::LessEqualThan, args.len()));
    apply(vals.as_slice(), k)
}

// early returns false on obvious false conditions and returns Ambiguous on other Ambiguous cases
pub fn partial_compute<K: Fn(Query) -> Reply>(args: &[Expression], data: &Data, k: &K) -> (r:
    PartialResult)
    requires
        is_kernel(*k),
    ensures
        outcome_of(r) == partial_result(
            answers(*k),
            Operator::LessEqualThan,
            exprs_of(args@),
            data@,
        ),
    decreases args@, 3int,
{
    if args.len() >= 3 {
        partial_compute_range(Operator::LessEqualThan, args, data, k)
    } else {
        partial_compute_plain(Operator::LessEqualThan, args, data, k)
    }
}

fn compute_less_equal_than<K: Fn(Query) -> Reply>(a: &Value, b: &Value, k: &K) -> (r: bool)
    requires
        is_kernel(*k),
    ensures
        r == less_equal(answers(*k), a@, b@),
{
    crate::logic::less_equal_than(a, b, k)
}

/// Checks whether the value `b` is between `a` and `c`, including the bounds.
fn compute_between_inclusive<K: Fn(Query) -> Reply>(a: &Value, b: &Value, c: &Value, k: &K) -> (r:
    bool)
    requires
        is_kernel(*k),
    ensures
        r == between(answers(*k), a@, b@, c@),
{
    crate::logic::less_equal_than(a, b, k) && crate::logic::less_equal_than(b, c, k)
}

} // verus!

//! `jp_ver_le`: whether one version is another or comes before it, and
//! with three arguments whether a version is within a range.

use super::jp_version::{compare_version, version_order};
use super::{operands, partial_compute_plain, partial_compute_range, read_count, Operator};
use crate::data::Data;
use crate::expression::{exprs_of, outcome_of, partial_result, result, Expression, PartialResult};
use crate::kernel::{answers, is_kernel, Oracle, Query, Reply};
use crate::logic::{coerce_to_str, to_text};
use crate::value::{jsons_of, Json, Value};
use std::cmp::Ordering;
use vstd::prelude::*;

verus! {

/// The relation that the operator chains: version `x` is version `y` or
/// comes before it.
pub open spec fn related(o: Oracle, x: Json, y: Json) -> bool {
    match version_order(to_text(o, x), to_text(o, y), true) {
        Ordering::Greater => false,
        _ => true,
    }
}

/// With two operands, whether the first version is at most the second.
/// With three, whether the second is within the range from the first to
/// the third, the bounds included. With fewer than two, `false`.
pub open spec fn value(o: Oracle, vals: Seq<Json>) -> Json {
    if vals.len() < 2 {
        Json::Bool(false)
    } else if vals.len() == 2 {
        Json::Bool(related(o, vals[0], vals[1]))
    } else {
        Json::Bool(related(o, vals[0], vals[1]) && related(o, vals[1], vals[2]))
    }
}

/// Whether version `x` is at most version `y`.
pub fn is_related<K: Fn(Query) -> Reply>(x: &Value, y: &Value, k: &K) -> (r: bool)
    requires
        is_kernel(*k),
    ensures
        r == related(answers(*k), x@, y@),
{
    let first = coerce_to_str(x, k);
    let second = coerce_to_str(y, k);
    match compare_version(first.as_str(), second.as_str(), true) {
        Ordering::Greater => false,
        _ => true,
    }
}

/// The operator on the values of its operands.
pub fn apply<K: Fn(Query) -> Reply>(vals: &[Value], k: &K) -> (r: Value)
    requires
        is_kernel(*k),
    ensures
        r@ == value(answers(*k), jsons_of(vals@)),
{
    if vals.len() < 2 {
        Value::Bool(false)
    } else if vals.len() == 2 {
        Value::Bool(is_related(&vals[0], &vals[1], k))
    } else {
        Value::Bool(is_related(&vals[0], &vals[1], k) && is_related(&vals[1], &vals[2], k))
    }
}

/// Evaluates the operator on its arguments.
pub fn compute<K: Fn(Query) -> Reply>(args: &[Expression], data: &Data, k: &K) -> (r: Value)
    requires
        is_kernel(*k),
    ensures
        r@ == result(answers(*k), Operator::JuspayVerLtEq, exprs_of(args@), data@),
    decreases args@, 3int,
{
    let vals = operands(args, data, k, read_count(Operator::JuspayVerLtEq, args.len()));
    apply(vals.as_slice(), k)
}

// early returns false on obvious false conditions and returns Ambiguous on other Ambiguous cases
pub fn partial_compute<K: Fn(Query) -> Reply>(args: &[Expression], data: &Data, k: &K) -> (r:
    PartialResult)
    requires
        is_kernel(*k),
    ensures
        outcome_of(r) == partial_result(
            answers(*k),
            Operator::JuspayVerLtEq,
            exprs_of(args@),
            data@,
        ),
    decreases args@, 3int,
{
    if args.len() >= 3 {
        partial_compute_range(Operator::JuspayVerLtEq, args, data, k)
    } else {
        partial_compute_plain(Operator::JuspayVerLtEq, args, data, k)
    }
}

} // verus!

//! `jp_ver_gt`: whether one version comes after another.

use super::jp_version::{compare_version, version_order};
use super::{operands, partial_operands, read_count, Operator};
use crate::data::Data;
use crate::expression::{exprs_of, outcome_of, partial_result, result, Expression, PartialResult};
use crate::kernel::{answers, is_kernel, Oracle, Query, Reply};
use crate::logic::{coerce_to_str, to_text};
use crate::value::{jsons_of, Json, Value};
use std::cmp::Ordering;
use vstd::prelude::*;

verus! {

/// Whether the first operand, as a version, comes after the second; `false`
/// where one is missing.
pub open spec fn value(o: Oracle, vals: Seq<Json>) -> Json {
    if vals.len() < 2 {
        Json::Bool(false)
    } else {
        Json::Bool(
            match version_order(to_text(o, vals[0]), to_text(o, vals[1]), true) {
                Ordering::Greater => true,
                _ => false,
            },
        )
    }
}

/// The operator on the values of its operands.
pub fn apply<K: Fn(Query) -> Reply>(vals: &[Value], k: &K) -> (r: Value)
    requires
        is_kernel(*k),
    ensures
        r@ == value(answers(*k), jsons_of(vals@)),
{
    if vals.len() < 2 {
        return Value::Bool(false);
    }
    let first = coerce_to_str(&vals[0], k);
    let second = coerce_to_str(&vals[1], k);
    let result = compare_version(first.as_str(), second.as_str(), true);
    Value::Bool(
        match result {
            Ordering::Greater => true,
            _ => false,
        },
    )
}

/// Evaluates the operator on its arguments.
pub fn compute<K: Fn(Query) -> Reply>(args: &[Expression], data: &Data, k: &K) -> (r: Value)
    requires
        is_kernel(*k),
    ensures
        r@ == result(answers(*k), Operator::JuspayVerGt, exprs_of(args@), data@),
    decreases args@, 3int,
{
    let vals = operands(args, data, k, read_count(Operator::JuspayVerGt, args.len()));
    apply(vals.as_slice(), k)
}

// Ambiguous as soon as one of the two operands is.
pub fn partial_compute<K: Fn(Query) -> Reply>(args: &[Expression], data: &Data, k: &K) -> (r:
    PartialResult)
    requires
        is_kernel(*k),
    ensures
        outcome_of(r) == partial_result(answers(*k), Operator::JuspayVerGt, exprs_of(args@), data@),
    decreases args@, 3int,
{
    match partial_operands(args, data, k, read_count(Operator::JuspayVerGt, args.len())) {
        Ok(vals) => Ok(apply(vals.as_slice(), k)),
        Err(a) => Err(a),
    }
}

} // verus!

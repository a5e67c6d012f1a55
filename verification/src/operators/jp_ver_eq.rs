//! `jp_ver_eq`: whether two versions are the same.

use super::jp_version::{compare_version, version_order};
use super::{operands, read_count, Operator};
use crate::data::Data;
use crate::expression::{exprs_of, result, Expression};
use crate::kernel::{answers, is_kernel, Oracle, Query, Reply};
use crate::logic::{coerce_to_str, to_text};
use crate::value::{jsons_of, Json, Value};
use std::cmp::Ordering;
use vstd::prelude::*;

verus! {

/// Whether the first operand, as a version, equals the second; `false`
/// where one is missing.
pub open spec fn value(o: Oracle, vals: Seq<Json>) -> Json {
    if vals.len() < 2 {
        Json::Bool(false)
    } else {
        Json::Bool(
            match version_order(to_text(o, vals[0]), to_text(o, vals[1]), true) {
                Ordering::Equal => true,
                _ => false,
            },
        )
    }
}

/// The operator on the values of its operands.
pub fn apply<K: Fn(Query) -> Reply>(vals: &[Value], k: &K) -> (r: Value)
    requires
        is_kernel(*k),
    ensures
        r@ == value(answers(*k), jsons_of(vals@)),
{
    if vals.len() < 2 {
        return Value::Bool(false);
    }
    let first = coerce_to_str(&vals[0], k);
    let second = coerce_to_str(&vals[1], k);
    let result = compare_version(first.as_str(), second.as_str(), true);
    Value::Bool(
        match result {
            Ordering::Equal => true,
            _ => false,
        },
    )
}

/// Evaluates the operator on its arguments.
pub fn compute<K: Fn(Query) -> Reply>(args: &[Expression], data: &Data, k: &K) -> (r: Value)
    requires
        is_kernel(*k),
    ensures
        r@ == result(answers(*k), Operator::JuspayVerEq, exprs_of(args@), data@),
    decreases args@, 3int,
{
    let vals = operands(args, data, k, read_count(Operator::JuspayVerEq, args.len()));
    apply(vals.as_slice(), k)
}

} // verus!

//! `jp_ver_ge`: whether one version is another or comes after it.

use super::jp_version::{compare_version, version_order};
use crate::kernel::{answers, is_kernel, Oracle, Query, Reply};
use crate::logic::{coerce_to_str, to_text};
use crate::value::{jsons_of, Json, Value};
use std::cmp::Ordering;
use vstd::prelude::*;

verus! {

/// Whether the first operand, as a version, is or comes after the second; `false`
/// where one is missing.
pub open spec fn value(o: Oracle, vals: Seq<Json>) -> Json {
    if vals.len() < 2 {
        Json::Bool(false)
    } else {
        Json::Bool(
            match version_order(to_text(o, vals[0]), to_text(o, vals[1]), true) {
                Ordering::Less => false,
                _ => true,
            },
        )
    }
}

/// Evaluates the operator on the values of its operands.
pub fn compute<K: Fn(Query) -> Reply>(args: &[Value], k: &K) -> (r: Value)
    requires
        is_kernel(*k),
    ensures
        r@ == value(answers(*k), jsons_of(args@)),
{
    if args.len() < 2 {
        return Value::Bool(false);
    }
    let first = coerce_to_str(&args[0], k);
    let second = coerce_to_str(&args[1], k);
    let result = compare_version(first.as_str(), second.as_str(), true);
    Value::Bool(
        match result {
            Ordering::Less => false,
            _ => true,
        },
    )
}

} // verus!

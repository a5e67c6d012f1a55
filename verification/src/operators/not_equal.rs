//! `!=`: inequality with coercion.

use super::{arg, operand};
use crate::kernel::{answers, is_kernel, Oracle, Query, Reply};
use crate::logic::{is_abstract_equal, loose_equal};
use crate::value::{jsons_of, Json, Value};
use vstd::prelude::*;

verus! {

/// Whether the first two operands are not loosely equal. A missing
/// operand reads as `null`.
pub open spec fn value(o: Oracle, vals: Seq<Json>) -> Json {
    Json::Bool(!loose_equal(o, arg(vals, 0), arg(vals, 1)))
}

/// Evaluates the operator on the values of its operands.
pub fn compute<K: Fn(Query) -> Reply>(args: &[Value], k: &K) -> (r: Value)
    requires
        is_kernel(*k),
    ensures
        r@ == value(answers(*k), jsons_of(args@)),
{
    let null = Value::Null;
    let a = operand(args, 0, &null);
    let b = operand(args, 1, &null);
    Value::Bool(!is_abstract_equal(a, b, k))
}

} // verus!

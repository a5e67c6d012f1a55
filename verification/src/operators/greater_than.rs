//! `>`

use crate::kernel::{answers, is_kernel, Oracle, Query, Reply};
use crate::logic::{greater_than, less};
use crate::value::{jsons_of, Json, Value};
use vstd::prelude::*;

verus! {

/// Whether the first operand is greater than the second; `false` where
/// one is missing.
pub open spec fn value(o: Oracle, vals: Seq<Json>) -> Json {
    if vals.len() < 2 {
        Json::Bool(false)
    } else {
        Json::Bool(less(o, vals[1], vals[0]))
    }
}

/// Evaluates the operator on the values of its operands.
pub fn compute<K: Fn(Query) -> Reply>(args: &[Value], k: &K) -> (r: Value)
    requires
        is_kernel(*k),
    ensures
        r@ == value(answers(*k), jsons_of(args@)),
{
    if args.len() < 2 {
        return Value::Bool(false);
    }
    Value::Bool(greater_than(&args[0], &args[1], k))
}

} // verus!

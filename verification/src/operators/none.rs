//! `none`: whether a condition holds of no item.

use super::{
    apply_body, array_items, decided, items_of_array, partial_apply_body, unclear, Operator,
};
use crate::data::Data;
use crate::expression::{
    body_of, exprs_of, outcome_of, partial_body_of, partial_result, result, Ambiguous,
    Expression, PartialResult,
};
use crate::kernel::{answers, is_kernel, Query, Reply};
use crate::logic::{is_truthy, truthy};
use crate::value::{jsons_of, Json, Value};
use vstd::prelude::*;

verus! {

/// Whether the second argument counts as true on no item of the first
/// operand, which is an array. It is `false` where the first operand is
/// no array, and `true` where there are fewer than two arguments.
pub open spec fn value(vals: Seq<Json>, body: spec_fn(Json) -> Json) -> Json {
    if vals.len() < 2 {
        Json::Bool(true)
    } else {
        match array_items(vals[0]) {
            None => Json::Bool(false),
            Some(items) => Json::Bool(
                !exists|i: int| 0 <= i < items.len() && truthy(body(#[trigger] items[i])),
            ),
        }
    }
}

/// The partial result. With fewer than two arguments it is `true`.
/// Else it is ambiguous where the first operand is, and `false` where
/// the first operand is no array. With
/// the items known, one item on which the condition is known to hold
/// makes it `false`, whatever is ambiguous on the others; without such
/// an item it is ambiguous where the condition is ambiguous on an item,
/// and else `true`.
pub open spec fn partial(ps: Seq<Option<Json>>, body: spec_fn(Json) -> Option<Json>) -> Option<
    Json,
> {
    if ps.len() < 2 {
        Some(Json::Bool(true))
    } else {
        match ps[0] {
            None => None,
            Some(source) => match array_items(source) {
                None => Some(Json::Bool(false)),
                Some(items) => if decided(items, body, true) {
                    Some(Json::Bool(false))
                } else if unclear(items, body) {
                    None
                } else {
                    Some(Json::Bool(true))
                },
            },
        }
    }
}

/// Takes an array as the first argument and a condition as the second argument. Returns `true`
/// if the condition evaluates to a falsy value for each element of the first parameter.
///
/// `var` operations inside the second argument expression are relative to the array element
/// being tested.
#[verifier::loop_isolation(false)]
pub fn compute<K: Fn(Query) -> Reply>(args: &[Expression], data: &Data, k: &K) -> (r: Value)
    requires
        is_kernel(*k),
    ensures
        r@ == result(answers(*k), Operator::NoneOf, exprs_of(args@), data@),
    decreases args@, 3int,
{
    let ghost body = body_of(answers(*k), exprs_of(args@));
    if args.len() < 2 {
        return Value::Bool(true);
    }
    let arr = match items_of_array(args[0].compute(data, k)) {
        Some(arr) => arr,
        None => {
            return Value::Bool(false);
        },
    };
    let ghost all = jsons_of(arr@);
    let mut i: usize = 0;
    while i < arr.len()
        invariant
            i <= arr.len(),
            forall|j: int| 0 <= j < i ==> !truthy(body(#[trigger] all[j])),
        decreases arr.len() - i,
    {
        let result = apply_body(args, &arr[i], k);
        if is_truthy(&result) {
            assert(truthy(body(all[i as int])));
            return Value::Bool(false);
        }
        i = i + 1;
    }
    // The condition holds of no element.
    Value::Bool(true)
}

// Ambiguous where the first argument is; else decided by an item on which the condition
// is known to hold, and Ambiguous where the condition is on an item and there is no such item.
#[verifier::loop_isolation(false)]
pub fn partial_compute<K: Fn(Query) -> Reply>(args: &[Expression], data: &Data, k: &K) -> (r:
    PartialResult)
    requires
        is_kernel(*k),
    ensures
        outcome_of(r) == partial_result(answers(*k), Operator::NoneOf, exprs_of(args@), data@),
    decreases args@, 3int,
{
    let ghost body = partial_body_of(answers(*k), exprs_of(args@));
    if args.len() < 2 {
        return Ok(Value::Bool(true));
    }
    let source = match args[0].partial_compute(data, k) {
        Ok(source) => source,
        Err(a) => {
            return Err(a);
        },
    };
    let arr = match items_of_array(source) {
        Some(arr) => arr,
        None => {
            return Ok(Value::Bool(false));
        },
    };
    let ghost all = jsons_of(arr@);
    let mut is_ambiguous = false;
    let mut i: usize = 0;
    while i < arr.len()
        invariant
            i <= arr.len(),
            forall|j: int|
                0 <= j < i ==> match body(#[trigger] all[j]) {
                    Some(v) => !truthy(v),
                    None => true,
                },
            is_ambiguous <==> exists|j: int| 0 <= j < i && body(#[trigger] all[j]) is None,
        decreases arr.len() - i,
    {
        match partial_apply_body(args, &arr[i], k) {
            Err(_) => {
                assert(body(all[i as int]) is None);
                is_ambiguous = true;
            },
            Ok(result) => {
                if is_truthy(&result) {
                    assert(body(all[i as int]) matches Some(v) && truthy(v));
                    return Ok(Value::Bool(false));
                }
            },
        }
        i = i + 1;
    }
    if is_ambiguous {
        return Err(Ambiguous);
    }
    // The condition holds of no element.
    Ok(Value::Bool(true))
}

} // verus!

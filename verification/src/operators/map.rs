//! `map`: an array of what a rule gives on each item.

use super::{apply_body, array_items, items_of_array, partial_apply_body, unclear, Operator};
use crate::data::Data;
use crate::expression::{
    body_of, exprs_of, outcome_of, partial_body_of, partial_result, result, Expression,
    PartialResult,
};
use crate::kernel::{answers, is_kernel, Query, Reply};
use crate::value::{array_view, jsons_of, Json, Value};
use vstd::prelude::*;

verus! {

/// The array of the values of the second argument on the items of the
/// first operand. It is empty where the first operand is no array and
/// where there are fewer than two arguments.
pub open spec fn value(vals: Seq<Json>, body: spec_fn(Json) -> Json) -> Json {
    if vals.len() < 2 {
        Json::Array(Seq::<Json>::empty())
    } else {
        match array_items(vals[0]) {
            None => Json::Array(Seq::<Json>::empty()),
            Some(items) => Json::Array(Seq::new(items.len(), |i: int| body(items[i]))),
        }
    }
}

/// A partial result as a value; `null` where it is ambiguous.
pub open spec fn settled(r: Option<Json>) -> Json {
    match r {
        Some(v) => v,
        None => Json::Null,
    }
}

/// The partial result. With fewer than two arguments it is the empty
/// array. Else it is ambiguous where the first operand is, and where the
/// second argument is ambiguous on an item.
pub open spec fn partial(ps: Seq<Option<Json>>, body: spec_fn(Json) -> Option<Json>) -> Option<
    Json,
> {
    if ps.len() < 2 {
        Some(Json::Array(Seq::<Json>::empty()))
    } else {
        match ps[0] {
            None => None,
            Some(source) => match array_items(source) {
                None => Some(Json::Array(Seq::<Json>::empty())),
                Some(items) => if unclear(items, body) {
                    None
                } else {
                    Some(Json::Array(Seq::new(items.len(), |i: int| settled(body(items[i])))))
                },
            },
        }
    }
}

/// Evaluates the operator on its arguments.
#[verifier::loop_isolation(false)]
pub fn compute<K: Fn(Query) -> Reply>(args: &[Expression], data: &Data, k: &K) -> (r: Value)
    requires
        is_kernel(*k),
    ensures
        r@ == result(answers(*k), Operator::MapEach, exprs_of(args@), data@),
    decreases args@, 3int,
{
    let ghost body = body_of(answers(*k), exprs_of(args@));
    let arr: Vec<Value> = if args.len() < 2 {
        Vec::new()
    } else {
        match items_of_array(args[0].compute(data, k)) {
            Some(arr) => arr,
            None => Vec::new(),
        }
    };
    let ghost all = jsons_of(arr@);
    let mut out: Vec<Value> = Vec::new();
    let mut i: usize = 0;
    while i < arr.len()
        invariant
            i <= arr.len(),
            out@.len() == i,
            forall|j: int| 0 <= j < i ==> (#[trigger] out@[j])@ == body(all[j]),
        decreases arr.len() - i,
    {
        out.push(apply_body(args, &arr[i], k));
        i = i + 1;
    }
    proof {
        array_view(out);
        let target = value(crate::expression::evals(answers(*k), exprs_of(args@), data@), body);
        assert(jsons_of(out@) =~= target->Array_0);
    }
    Value::Array(out)
}

// Ambiguous where the array is, or the rule on one of its items.
#[verifier::loop_isolation(false)]
pub fn partial_compute<K: Fn(Query) -> Reply>(args: &[Expression], data: &Data, k: &K) -> (r:
    PartialResult)
    requires
        is_kernel(*k),
    ensures
        outcome_of(r) == partial_result(answers(*k), Operator::MapEach, exprs_of(args@), data@),
    decreases args@, 3int,
{
    let ghost body = partial_body_of(answers(*k), exprs_of(args@));
    if args.len() < 2 {
        let empty: Vec<Value> = Vec::new();
        proof {
            array_view(empty);
            assert(jsons_of(empty@) =~= Seq::<Json>::empty());
        }
        return Ok(Value::Array(empty));
    }
    let source = match args[0].partial_compute(data, k) {
        Ok(source) => source,
        Err(a) => {
            return Err(a);
        },
    };
    let arr = match items_of_array(source) {
        Some(arr) => arr,
        None => {
            let empty: Vec<Value> = Vec::new();
            proof {
                array_view(empty);
                assert(jsons_of(empty@) =~= Seq::<Json>::empty());
            }
            return Ok(Value::Array(empty));
        },
    };
    let ghost all = jsons_of(arr@);
    let mut out: Vec<Value> = Vec::new();
    let mut i: usize = 0;
    while i < arr.len()
        invariant
            i <= arr.len(),
            out@.len() == i,
            forall|j: int| 0 <= j < i ==> body(#[trigger] all[j]) == Some(out@[j]@),
        decreases arr.len() - i,
    {
        match partial_apply_body(args, &arr[i], k) {
            Err(a) => {
                assert(body(all[i as int]) is None);
                return Err(a);
            },
            Ok(v) => {
                out.push(v);
            },
        }
        i = i + 1;
    }
    proof {
        array_view(out);
        let target = partial(
            crate::expression::partial_evals(answers(*k), exprs_of(args@), data@),
            body,
        );
        assert(target matches Some(Json::Array(items)) && jsons_of(out@) =~= items);
    }
    Ok(Value::Array(out))
}

} // verus!

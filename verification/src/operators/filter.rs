//! `filter`: the items of an array that pass a test.

use super::{apply_body, array_items, items_of_array, partial_apply_body, unclear, Operator};
use crate::data::Data;
use crate::expression::{
    body_of, exprs_of, outcome_of, partial_body_of, partial_result, result, Ambiguous,
    Expression, PartialResult,
};
use crate::kernel::{answers, is_kernel, Query, Reply};
use crate::logic::{is_truthy, truthy};
use crate::value::{array_view, jsons_of, Json, Value};
use vstd::prelude::*;

verus! {

/// The items on which `test` holds, in their order.
pub open spec fn kept(items: Seq<Json>, test: spec_fn(Json) -> bool) -> Seq<Json>
    decreases items.len(),
{
    if items.len() == 0 {
        Seq::<Json>::empty()
    } else if test(items.last()) {
        kept(items.drop_last(), test).push(items.last())
    } else {
        kept(items.drop_last(), test)
    }
}

/// The array of the items of the first operand on which the second
/// argument counts as true. It is empty where the first operand is no
/// array and where there are fewer than two arguments.
pub open spec fn value(vals: Seq<Json>, body: spec_fn(Json) -> Json) -> Json {
    if vals.len() < 2 {
        Json::Array(Seq::<Json>::empty())
    } else {
        match array_items(vals[0]) {
            None => Json::Array(Seq::<Json>::empty()),
            Some(items) => Json::Array(kept(items, |x: Json| truthy(body(x)))),
        }
    }
}

/// The partial result. With fewer than two arguments it is the empty
/// array. Else it is ambiguous where the first operand is, and where the
/// test is ambiguous on an item: which items are kept then depends on
/// data that is still missing.
pub open spec fn partial(ps: Seq<Option<Json>>, body: spec_fn(Json) -> Option<Json>) -> Option<
    Json,
> {
    if ps.len() < 2 {
        Some(Json::Array(Seq::<Json>::empty()))
    } else {
        match ps[0] {
            None => None,
            Some(source) => match array_items(source) {
                None => Some(Json::Array(Seq::<Json>::empty())),
                Some(items) => if unclear(items, body) {
                    None
                } else {
                    Some(Json::Array(kept(items, |x: Json| passes(body(x)))))
                },
            },
        }
    }
}

/// Whether a partial result is a value that counts as true.
pub open spec fn passes(r: Option<Json>) -> bool {
    match r {
        Some(v) => truthy(v),
        None => false,
    }
}

/// You can use `filter` to keep only elements of the array that pass a test. Note, that inside
/// the logic being used to map, var operations are relative to the array element being worked
/// on.
///
/// Also note, the returned array will have contiguous indexes starting at zero: it will not
/// preserve the source indexes.
#[verifier::loop_isolation(false)]
pub fn compute<K: Fn(Query) -> Reply>(args: &[Expression], data: &Data, k: &K) -> (r: Value)
    requires
        is_kernel(*k),
    ensures
        r@ == result(answers(*k), Operator::Filter, exprs_of(args@), data@),
    decreases args@, 3int,
{
    let ghost body = body_of(answers(*k), exprs_of(args@));
    let ghost test = |x: Json| truthy(body(x));
    let arr: Vec<Value> = if args.len() < 2 {
        Vec::new()
    } else {
        match items_of_array(args[0].compute(data, k)) {
            Some(arr) => arr,
            None => Vec::new(),
        }
    };
    let ghost all = jsons_of(arr@);
    let mut result: Vec<Value> = Vec::new();
    let mut i: usize = 0;
    while i < arr.len()
        invariant
            i <= arr.len(),
            jsons_of(result@) == kept(all.take(i as int), test),
        decreases arr.len() - i,
    {
        proof {
            assert(all.take(i + 1).drop_last() =~= all.take(i as int));
        }
        let verdict = apply_body(args, &arr[i], k);
        if is_truthy(&verdict) {
            let ghost before = jsons_of(result@);
            result.push(arr[i].clone());
            assert(jsons_of(result@) =~= before.push(all[i as int]));
        }
        i = i + 1;
    }
    proof {
        assert(all.take(arr.len() as int) =~= all);
        array_view(result);
        if arr.len() == 0 {
            assert(jsons_of(result@) =~= Seq::<Json>::empty());
        }
    }
    Value::Array(result)
}

// Ambiguous where the first argument is, or the test on one of the items.
#[verifier::loop_isolation(false)]
pub fn partial_compute<K: Fn(Query) -> Reply>(args: &[Expression], data: &Data, k: &K) -> (r:
    PartialResult)
    requires
        is_kernel(*k),
    ensures
        outcome_of(r) == partial_result(answers(*k), Operator::Filter, exprs_of(args@), data@),
    decreases args@, 3int,
{
    let ghost body = partial_body_of(answers(*k), exprs_of(args@));
    let ghost test = |x: Json| passes(body(x));
    if args.len() < 2 {
        let empty: Vec<Value> = Vec::new();
        proof {
            array_view(empty);
            assert(jsons_of(empty@) =~= Seq::<Json>::empty());
        }
        return Ok(Value::Array(empty));
    }
    let source = match args[0].partial_compute(data, k) {
        Ok(source) => source,
        Err(a) => {
            return Err(a);
        },
    };
    let arr = match items_of_array(source) {
        Some(arr) => arr,
        None => {
            let empty: Vec<Value> = Vec::new();
            proof {
                array_view(empty);
                assert(jsons_of(empty@) =~= Seq::<Json>::empty());
            }
            return Ok(Value::Array(empty));
        },
    };
    let ghost all = jsons_of(arr@);
    let mut is_ambiguous = false;
    let mut result: Vec<Value> = Vec::new();
    let mut i: usize = 0;
    while i < arr.len()
        invariant
            i <= arr.len(),
            jsons_of(result@) == kept(all.take(i as int), test),
            is_ambiguous <==> exists|j: int| 0 <= j < i && body(#[trigger] all[j]) is None,
        decreases arr.len() - i,
    {
        proof {
            assert(all.take(i + 1).drop_last() =~= all.take(i as int));
        }
        match partial_apply_body(args, &arr[i], k) {
            Err(_) => {
                assert(body(all[i as int]) is None);
                is_ambiguous = true;
            },
            Ok(verdict) => {
                if is_truthy(&verdict) {
                    let ghost before = jsons_of(result@);
                    result.push(arr[i].clone());
                    assert(jsons_of(result@) =~= before.push(all[i as int]));
                }
            },
        }
        i = i + 1;
    }
    if is_ambiguous {
        return Err(Ambiguous);
    }
    proof {
        assert(all.take(arr.len() as int) =~= all);
        array_view(result);
    }
    Ok(Value::Array(result))
}

} // verus!

//! `reduce`: one value out of an array, gathered item by item.

use super::{apply_body, arg, array_items, items_of_array, partial_apply_body, Operator};
use crate::data::Data;
use crate::expression::{
    body_of, evals, exprs_of, outcome_of, partial_body_of, partial_evals, partial_result,
    result, Expression, PartialResult,
};
use crate::kernel::{answers, is_kernel, Query, Reply};
use crate::value::{jsons_of, object_view, Json, Value};
use vstd::prelude::*;

verus! {

/// The data that the second argument sees at one step: the item as
/// `current` and what was gathered so far as `accumulator`.
pub open spec fn context(item: Json, gathered: Json) -> Json {
    Json::Object(seq![("current"@, item), ("accumulator"@, gathered)])
}

/// What is gathered from `first` through the items: at each step the
/// second argument is evaluated on the item and on what was gathered.
pub open spec fn gathered(items: Seq<Json>, body: spec_fn(Json) -> Json, first: Json) -> Json
    decreases items.len(),
{
    if items.len() == 0 {
        first
    } else {
        body(context(items.last(), gathered(items.drop_last(), body, first)))
    }
}

/// What is gathered through the items of the first operand, starting
/// from the third operand, or from `null` where there is none. Where the
/// first operand is no array, it is the start value; with fewer than two
/// arguments it is `null`.
pub open spec fn value(vals: Seq<Json>, body: spec_fn(Json) -> Json) -> Json {
    if vals.len() < 2 {
        Json::Null
    } else {
        match array_items(vals[0]) {
            None => arg(vals, 2),
            Some(items) => gathered(items, body, arg(vals, 2)),
        }
    }
}

/// What is gathered while every step has a value; ambiguous from the
/// first step on that is.
pub open spec fn partly_gathered(
    items: Seq<Json>,
    body: spec_fn(Json) -> Option<Json>,
    first: Json,
) -> Option<Json>
    decreases items.len(),
{
    if items.len() == 0 {
        Some(first)
    } else {
        match partly_gathered(items.drop_last(), body, first) {
            Some(so_far) => body(context(items.last(), so_far)),
            None => None,
        }
    }
}

/// The partial result. With fewer than two arguments it is `null`. Else
/// it is ambiguous where the first operand, the third operand or one of
/// the steps is.
pub open spec fn partial(ps: Seq<Option<Json>>, body: spec_fn(Json) -> Option<Json>) -> Option<
    Json,
> {
    if ps.len() < 2 {
        Some(Json::Null)
    } else {
        match (
            ps[0],
            if ps.len() >= 3 {
                ps[2]
            } else {
                Some(Json::Null)
            },
        ) {
            (Some(source), Some(first)) => match array_items(source) {
                None => Some(first),
                Some(items) => partly_gathered(items, body, first),
            },
            _ => None,
        }
    }
}

/// The data of one step.
fn step_data(item: &Value, so_far: Value) -> (r: Value)
    ensures
        r@ == context(item@, so_far@),
{
    let mut members: Vec<(String, Value)> = Vec::new();
    members.push(("current".to_owned(), item.clone()));
    members.push(("accumulator".to_owned(), so_far));
    proof {
        object_view(members);
        assert(crate::value::members_of(members@) =~= seq![
            ("current"@, item@),
            ("accumulator"@, so_far@),
        ]);
    }
    Value::Object(members)
}

/// Evaluates the operator on its arguments.
#[verifier::loop_isolation(false)]
pub fn compute<K: Fn(Query) -> Reply>(args: &[Expression], data: &Data, k: &K) -> (r: Value)
    requires
        is_kernel(*k),
    ensures
        r@ == result(answers(*k), Operator::Reduce, exprs_of(args@), data@),
    decreases args@, 3int,
{
    let ghost body = body_of(answers(*k), exprs_of(args@));
    let ghost vals = evals(answers(*k), exprs_of(args@), data@);
    if args.len() < 2 {
        return Value::Null;
    }
    let first = if args.len() >= 3 {
        args[2].compute(data, k)
    } else {
        Value::Null
    };
    assert(first@ == arg(vals, 2));
    let arr = match items_of_array(args[0].compute(data, k)) {
        Some(arr) => arr,
        None => {
            return first;
        },
    };
    let ghost all = jsons_of(arr@);
    let ghost start = first@;
    let mut acc = first;
    let mut i: usize = 0;
    while i < arr.len()
        invariant
            i <= arr.len(),
            acc@ == gathered(all.take(i as int), body, start),
        decreases arr.len() - i,
    {
        proof {
            assert(all.take(i + 1).drop_last() =~= all.take(i as int));
        }
        let step = step_data(&arr[i], acc);
        acc = apply_body(args, &step, k);
        i = i + 1;
    }
    assert(all.take(arr.len() as int) =~= all);
    acc
}

// Ambiguous where the array, the start value or one of the steps is.
#[verifier::loop_isolation(false)]
pub fn partial_compute<K: Fn(Query) -> Reply>(args: &[Expression], data: &Data, k: &K) -> (r:
    PartialResult)
    requires
        is_kernel(*k),
    ensures
        outcome_of(r) == partial_result(answers(*k), Operator::Reduce, exprs_of(args@), data@),
    decreases args@, 3int,
{
    let ghost body = partial_body_of(answers(*k), exprs_of(args@));
    let ghost ps = partial_evals(answers(*k), exprs_of(args@), data@);
    if args.len() < 2 {
        return Ok(Value::Null);
    }
    let source = match args[0].partial_compute(data, k) {
        Ok(source) => source,
        Err(a) => {
            return Err(a);
        },
    };
    let first = if args.len() >= 3 {
        match args[2].partial_compute(data, k) {
            Ok(first) => first,
            Err(a) => {
                return Err(a);
            },
        }
    } else {
        Value::Null
    };
    let arr = match items_of_array(source) {
        Some(arr) => arr,
        None => {
            return Ok(first);
        },
    };
    let ghost all = jsons_of(arr@);
    let ghost start = first@;
    let mut acc = first;
    let mut i: usize = 0;
    while i < arr.len()
        invariant
            i <= arr.len(),
            partly_gathered(all.take(i as int), body, start) == Some(acc@),
        decreases arr.len() - i,
    {
        proof {
            assert(all.take(i + 1).drop_last() =~= all.take(i as int));
        }
        let step = step_data(&arr[i], acc);
        match partial_apply_body(args, &step, k) {
            Ok(next) => {
                acc = next;
            },
            Err(a) => {
                proof {
                    ambiguous_for_good(all, body, start, i + 1);
                }
                return Err(a);
            },
        }
        i = i + 1;
    }
    assert(all.take(arr.len() as int) =~= all);
    Ok(acc)
}

/// Once a step is ambiguous, so is what is gathered through all items.
proof fn ambiguous_for_good(
    items: Seq<Json>,
    body: spec_fn(Json) -> Option<Json>,
    first: Json,
    n: int,
)
    requires
        0 <= n <= items.len(),
        partly_gathered(items.take(n), body, first) is None,
    ensures
        partly_gathered(items, body, first) is None,
    decreases items.len(),
{
    if n < items.len() {
        assert(items.drop_last().take(n) =~= items.take(n));
        ambiguous_for_good(items.drop_last(), body, first, n);
    } else {
        assert(items.take(n) =~= items);
    }
}

} // verus!

//! `all`: whether a condition holds of every item.

use super::{apply_body, decided, partial_apply_body, unclear, Operator};
use crate::data::Data;
use crate::expression::{
    body_of, exprs_of, outcome_of, partial_body_of, partial_result, result, Ambiguous,
    Expression, PartialResult,
};
use crate::kernel::{answers, is_kernel, Query, Reply};
use crate::logic::{is_truthy, truthy};
use crate::text::{chars_of, string_of};
use crate::value::{array_view, jsons_of, Json, Value};
use vstd::prelude::*;

verus! {

/// The items that the operator works through: those of an array, or the
/// characters of a string, each as a string of its own.
pub open spec fn items_of(source: Json) -> Option<Seq<Json>> {
    match source {
        Json::Array(items) => Some(items),
        Json::String(s) => Some(Seq::new(s.len(), |i: int| Json::String(seq![s[i]]))),
        _ => None,
    }
}

/// Whether the first operand has items, and the second argument counts
/// as true on each of them. It is `false` where there are fewer than two
/// arguments, and where the first operand is neither an array nor a
/// string, or is empty.
pub open spec fn value(vals: Seq<Json>, body: spec_fn(Json) -> Json) -> Json {
    if vals.len() < 2 {
        Json::Bool(false)
    } else {
        match items_of(vals[0]) {
            None => Json::Bool(false),
            Some(items) => Json::Bool(
                items.len() > 0 && forall|i: int|
                    0 <= i < items.len() ==> truthy(body(#[trigger] items[i])),
            ),
        }
    }
}

/// The partial result. With fewer than two arguments it is `false`.
/// Else it is ambiguous where the first operand is. With
/// the items known, one item on which the condition is known to fail
/// makes it `false`, whatever is ambiguous on the others; without such
/// an item it is ambiguous where the condition is ambiguous on an item,
/// and else `true`.
pub open spec fn partial(ps: Seq<Option<Json>>, body: spec_fn(Json) -> Option<Json>) -> Option<
    Json,
> {
    if ps.len() < 2 {
        Some(Json::Bool(false))
    } else {
        match ps[0] {
            None => None,
            Some(source) => match items_of(source) {
                None => Some(Json::Bool(false)),
                Some(items) => if items.len() == 0 {
                    Some(Json::Bool(false))
                } else if decided(items, body, false) {
                    Some(Json::Bool(false))
                } else if unclear(items, body) {
                    None
                } else {
                    Some(Json::Bool(true))
                },
            },
        }
    }
}

/// The items of `source`.
fn items<'a>(source: Value) -> (r: Option<Vec<Value>>)
    ensures
        match r {
            Some(found) => items_of(source@) == Some(jsons_of(found@)),
            None => items_of(source@) is None,
        },
{
    match source {
        Value::Array(arr) => {
            proof {
                array_view(arr);
            }
            Some(arr)
        },
        // Due to an implementation detail `all` also works on strings. Applying the condition on
        // each character on the string.
        Value::String(s) => {
            let cs = chars_of(s.as_str());
            let mut out: Vec<Value> = Vec::new();
            let mut i: usize = 0;
            while i < cs.len()
                invariant
                    i <= cs.len(),
                    out@.len() == i,
                    forall|j: int| 0 <= j < i ==> (#[trigger] out@[j])@ == Json::String(seq![cs@[j]]),
                decreases cs.len() - i,
            {
                let one: [char; 1] = [cs[i]];
                assert(one@ =~= seq![cs@[i as int]]);
                out.push(Value::String(string_of(one.as_slice())));
                i = i + 1;
            }
            assert(jsons_of(out@) =~= items_of(source@)->0);
            Some(out)
        },
        _ => None,
    }
}

/// Takes an array as the first argument and a condition as the second argument. Returns `true`
/// if the condition evaluates to a truthy value for each element of the first parameter.
///
/// `var` operations inside the second argument expression are relative to the array element
/// being tested.
#[verifier::loop_isolation(false)]
pub fn compute<K: Fn(Query) -> Reply>(args: &[Expression], data: &Data, k: &K) -> (r: Value)
    requires
        is_kernel(*k),
    ensures
        r@ == result(answers(*k), Operator::All, exprs_of(args@), data@),
    decreases args@, 3int,
{
    let ghost body = body_of(answers(*k), exprs_of(args@));
    if args.len() < 2 {
        return Value::Bool(false);
    }
    let arr = match items(args[0].compute(data, k)) {
        Some(arr) => arr,
        None => {
            return Value::Bool(false);
        },
    };
    if arr.len() == 0 {
        return Value::Bool(false);
    }
    let ghost all = jsons_of(arr@);
    let mut i: usize = 0;
    while i < arr.len()
        invariant
            i <= arr.len(),
            forall|j: int| 0 <= j < i ==> truthy(body(#[trigger] all[j])),
        decreases arr.len() - i,
    {
        let result = apply_body(args, &arr[i], k);
        if !is_truthy(&result) {
            assert(!truthy(body(all[i as int])));
            return Value::Bool(false);
        }
        i = i + 1;
    }
    // Condition is truthy for all elements.
    Value::Bool(true)
}

// Ambiguous where the first argument is; else false on a known counter-example, and
// Ambiguous where the condition is on an item and there is no such counter-example.
#[verifier::loop_isolation(false)]
pub fn partial_compute<K: Fn(Query) -> Reply>(args: &[Expression], data: &Data, k: &K) -> (r:
    PartialResult)
    requires
        is_kernel(*k),
    ensures
        outcome_of(r) == partial_result(answers(*k), Operator::All, exprs_of(args@), data@),
    decreases args@, 3int,
{
    let ghost body = partial_body_of(answers(*k), exprs_of(args@));
    if args.len() < 2 {
        return Ok(Value::Bool(false));
    }
    let source = match args[0].partial_compute(data, k) {
        Ok(source) => source,
        Err(a) => {
            return Err(a);
        },
    };
    let arr = match items(source) {
        Some(arr) => arr,
        None => {
            return Ok(Value::Bool(false));
        },
    };
    if arr.len() == 0 {
        return Ok(Value::Bool(false));
    }
    let ghost all = jsons_of(arr@);
    let mut is_ambiguous = false;
    let mut i: usize = 0;
    while i < arr.len()
        invariant
            i <= arr.len(),
            forall|j: int|
                0 <= j < i ==> match body(#[trigger] all[j]) {
                    Some(v) => truthy(v),
                    None => true,
                },
            is_ambiguous <==> exists|j: int| 0 <= j < i && body(#[trigger] all[j]) is None,
        decreases arr.len() - i,
    {
        match partial_apply_body(args, &arr[i], k) {
            Err(_) => {
                assert(body(all[i as int]) is None);
                is_ambiguous = true;
            },
            Ok(result) => {
                if !is_truthy(&result) {
                    assert(body(all[i as int]) matches Some(v) && !truthy(v));
                    return Ok(Value::Bool(false));
                }
            },
        }
        i = i + 1;
    }
    if is_ambiguous {
        return Err(Ambiguous);
    }
    // Condition is truthy for all elements.
    Ok(Value::Bool(true))
}

} // verus!

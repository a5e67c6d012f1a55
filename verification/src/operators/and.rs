//! `and`

use super::Operator;
use crate::data::Data;
use crate::expression::{
    evals, exprs_of, outcome_of, partial_evals, partial_result, result, Ambiguous, Expression,
    PartialResult,
};
use crate::kernel::{answers, is_kernel, Query, Reply};
use crate::logic::{is_truthy, truthy};
use crate::value::{Json, Value};
use vstd::prelude::*;

verus! {

/// The value from position `i` on: the first operand that counts as
/// false, or the last operand where none does.
pub open spec fn scan(vals: Seq<Json>, i: int) -> Json
    decreases vals.len() - i,
{
    if i < 0 || i >= vals.len() {
        Json::Null
    } else if !truthy(vals[i]) || i + 1 == vals.len() {
        vals[i]
    } else {
        scan(vals, i + 1)
    }
}

/// The first operand that counts as false, or the last operand where
/// none does; `null` where there is no operand.
pub open spec fn value(vals: Seq<Json>) -> Json {
    scan(vals, 0)
}

/// The partial result from position `i` on, where `seen` says whether an
/// operand before `i` was ambiguous and `last` is the last value before
/// `i`. The first operand that is a value and counts as false decides,
/// whatever was ambiguous before it. Where there is none, the result is
/// ambiguous if an operand was, and else the last operand.
pub open spec fn partial_scan(
    ps: Seq<Option<Json>>,
    i: int,
    seen: bool,
    last: Option<Json>,
) -> Option<Json>
    decreases ps.len() - i,
{
    if i < 0 || i >= ps.len() {
        if seen {
            None
        } else {
            match last {
                Some(v) => Some(v),
                None => Some(Json::Null),
            }
        }
    } else {
        match ps[i] {
            None => partial_scan(ps, i + 1, true, last),
            Some(v) => if !truthy(v) {
                Some(v)
            } else {
                partial_scan(ps, i + 1, seen, Some(v))
            },
        }
    }
}

/// The partial result of the operator on the partial results of its
/// operands.
pub open spec fn partial(ps: Seq<Option<Json>>) -> Option<Json> {
    partial_scan(ps, 0, false, None)
}

/// The view of the last value seen.
pub open spec fn seen_value(last: Option<Value>) -> Option<Json> {
    match last {
        Some(v) => Some(v@),
        None => None,
    }
}

/// Takes an arbitrary number of arguments. Returns the first falsy argument or the last
/// argument.
#[verifier::loop_isolation(false)]
pub fn compute<K: Fn(Query) -> Reply>(args: &[Expression], data: &Data, k: &K) -> (r: Value)
    requires
        is_kernel(*k),
    ensures
        r@ == result(answers(*k), Operator::And, exprs_of(args@), data@),
    decreases args@, 3int,
{
    let ghost vals = evals(answers(*k), exprs_of(args@), data@);
    let mut last: Option<Value> = None;
    let mut i: usize = 0;
    while i < args.len()
        invariant
            i <= args.len(),
            i < args.len() ==> scan(vals, 0) == scan(vals, i as int),
            0 < i == args.len() ==> scan(vals, 0) == vals[i - 1],
            i > 0 ==> seen_value(last) == Some(vals[i - 1]),
            i == 0 ==> last is None,
        decreases args.len() - i,
    {
        let arg = args[i].compute(data, k);
        if !is_truthy(&arg) {
            return arg;
        }
        last = Some(arg);
        i = i + 1;
    }
    match last {
        Some(v) => v,
        None => Value::Null,
    }
}

// for Ambiguous results, returns Ambiguous when no there are no false results
#[verifier::loop_isolation(false)]
pub fn partial_compute<K: Fn(Query) -> Reply>(args: &[Expression], data: &Data, k: &K) -> (r:
    PartialResult)
    requires
        is_kernel(*k),
    ensures
        outcome_of(r) == partial_result(answers(*k), Operator::And, exprs_of(args@), data@),
    decreases args@, 3int,
{
    let ghost ps = partial_evals(answers(*k), exprs_of(args@), data@);
    let mut last: Option<Value> = None;
    let mut is_ambiguous = false;
    let mut i: usize = 0;
    while i < args.len()
        invariant
            i <= args.len(),
            partial(ps) == partial_scan(ps, i as int, is_ambiguous, seen_value(last)),
        decreases args.len() - i,
    {
        match args[i].partial_compute(data, k) {
            Err(_) => {
                is_ambiguous = true;
            },
            Ok(arg) => {
                if !is_truthy(&arg) {
                    return Ok(arg);
                }
                last = Some(arg);
            },
        }
        i = i + 1;
    }
    if is_ambiguous {
        return Err(Ambiguous);
    }
    match last {
        Some(v) => Ok(v),
        None => Ok(Value::Null),
    }
}

/// `and` stops at the first operand that counts as false.
pub proof fn stops_at(vals: Seq<Json>, i: int, j: int)
    requires
        0 <= i <= j < vals.len(),
        forall|m: int| i <= m < j ==> truthy(#[trigger] vals[m]),
        !truthy(vals[j]),
    ensures
        scan(vals, i) == vals[j],
    decreases j - i,
{
    if i < j {
        stops_at(vals, i + 1, j);
    }
}

/// What `and` gives from position `i` on is one of the operands from
/// there on. It counts as false where one of them does, and is the last
/// operand where none does.
pub proof fn picks(vals: Seq<Json>, i: int)
    requires
        0 <= i < vals.len(),
    ensures
        exists|k: int| i <= k < vals.len() && scan(vals, i) == #[trigger] vals[k],
        (exists|j: int| i <= j < vals.len() && !truthy(#[trigger] vals[j])) ==> !truthy(
            scan(vals, i),
        ),
        (forall|j: int| i <= j < vals.len() ==> truthy(#[trigger] vals[j])) ==> scan(vals, i)
            == vals[vals.len() - 1],
    decreases vals.len() - i,
{
    if !truthy(vals[i]) || i + 1 == vals.len() {
        assert(scan(vals, i) == vals[i]);
    } else {
        picks(vals, i + 1);
        let k = choose|k: int| i + 1 <= k < vals.len() && scan(vals, i + 1) == #[trigger] vals[k];
        assert(i <= k < vals.len() && scan(vals, i) == vals[k]);
    }
}

} // verus!

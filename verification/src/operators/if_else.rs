//! `if`: conditions and what to take where one holds.

use super::Operator;
use crate::data::Data;
use crate::expression::{
    evals, exprs_of, outcome_of, partial_evals, partial_result, result, Expression,
    PartialResult,
};
use crate::kernel::{answers, is_kernel, Query, Reply};
use crate::logic::{is_truthy, truthy};
use crate::value::{Json, Value};
use vstd::prelude::*;

verus! {

/// The value from position `i` on: the operands come in pairs of a
/// condition and a value, and the value of the first pair whose condition
/// counts as true is taken. An operand left without a partner is the
/// value where no condition holds; without one the value is `null`.
pub open spec fn chain(vals: Seq<Json>, i: int) -> Json
    decreases vals.len() - i,
{
    if i < 0 || i >= vals.len() {
        Json::Null
    } else if i + 1 >= vals.len() {
        vals[i]
    } else if truthy(vals[i]) {
        vals[i + 1]
    } else {
        chain(vals, i + 2)
    }
}

/// The value of the first pair whose condition holds.
pub open spec fn value(vals: Seq<Json>) -> Json {
    chain(vals, 0)
}

/// The partial result from position `i` on: as `chain`, but a condition
/// that is ambiguous makes the whole ambiguous, since it decides which
/// value is taken.
pub open spec fn partial_chain(ps: Seq<Option<Json>>, i: int) -> Option<Json>
    decreases ps.len() - i,
{
    if i < 0 || i >= ps.len() {
        Some(Json::Null)
    } else if i + 1 >= ps.len() {
        ps[i]
    } else {
        match ps[i] {
            None => None,
            Some(c) => if truthy(c) {
                ps[i + 1]
            } else {
                partial_chain(ps, i + 2)
            },
        }
    }
}

/// The partial result of the first pair whose condition holds.
pub open spec fn partial(ps: Seq<Option<Json>>) -> Option<Json> {
    partial_chain(ps, 0)
}

/// Evaluates the operator on its arguments.
#[verifier::loop_isolation(false)]
pub fn compute<K: Fn(Query) -> Reply>(args: &[Expression], data: &Data, k: &K) -> (r: Value)
    requires
        is_kernel(*k),
    ensures
        r@ == result(answers(*k), Operator::If, exprs_of(args@), data@),
    decreases args@, 3int,
{
    let ghost vals = evals(answers(*k), exprs_of(args@), data@);
    let mut i: usize = 0;
    while i < args.len() && args.len() - i >= 2
        invariant
            i <= args.len(),
            chain(vals, 0) == chain(vals, i as int),
        decreases args.len() - i,
    {
        let condition = args[i].compute(data, k);
        if is_truthy(&condition) {
            return args[i + 1].compute(data, k);
        }
        i = i + 2;
    }
    if i < args.len() {
        args[i].compute(data, k)
    } else {
        Value::Null
    }
}

// Ambiguous where a condition that has to be looked at is.
#[verifier::loop_isolation(false)]
pub fn partial_compute<K: Fn(Query) -> Reply>(args: &[Expression], data: &Data, k: &K) -> (r:
    PartialResult)
    requires
        is_kernel(*k),
    ensures
        outcome_of(r) == partial_result(answers(*k), Operator::If, exprs_of(args@), data@),
    decreases args@, 3int,
{
    let ghost ps = partial_evals(answers(*k), exprs_of(args@), data@);
    let mut i: usize = 0;
    while i < args.len() && args.len() - i >= 2
        invariant
            i <= args.len(),
            partial_chain(ps, 0) == partial_chain(ps, i as int),
        decreases args.len() - i,
    {
        match args[i].partial_compute(data, k) {
            Err(a) => {
                return Err(a);
            },
            Ok(condition) => {
                if is_truthy(&condition) {
                    return args[i + 1].partial_compute(data, k);
                }
            },
        }
        i = i + 2;
    }
    if i < args.len() {
        args[i].partial_compute(data, k)
    } else {
        Ok(Value::Null)
    }
}

} // verus!

//! A rule engine for JsonLogic: rules are written as data, read into a
//! tree of operators once, and evaluated against data any number of
//! times. Besides evaluation on complete data there is partial
//! evaluation, which says of data that may still grow whether the result
//! is settled already, and what it is.
//!
//! The engine computes on integers and on text. Arithmetic on doubles is
//! the business of the numeric kernel that the caller hands in (see
//! `kernel`).

use crate::analysis::{names_view, variable_names};
use crate::data::Data;
use crate::expression::{eval, parse, partial_eval, Expression};
use crate::kernel::{answers, is_kernel, Oracle, Query, Reply};
use crate::value::{Json, Value};
use vstd::prelude::*;

pub mod analysis;
pub mod data;
pub mod expression;
pub mod kernel;
pub mod laws;
pub mod logic;
pub mod operators;
pub mod text;
pub mod validation;
pub mod value;

verus! {

/// What a partial evaluation gives: the value that the rule has whatever
/// the data still lacks, or the notice that the data at hand does not
/// settle it.
#[derive(Debug, PartialEq)]
pub enum PartialApplyOutcome {
    Resolved(Value),
    Ambiguous,
}

/// The model of an outcome: `None` stands for `Ambiguous`.
pub open spec fn outcome_view(r: PartialApplyOutcome) -> Option<Json> {
    match r {
        PartialApplyOutcome::Resolved(v) => Some(v@),
        PartialApplyOutcome::Ambiguous => None,
    }
}

/// What the rule document `rule` gives on `data`: the value of the rule
/// that the document holds, or the message of the parser.
pub open spec fn applied(o: Oracle, rule: Json, data: Json) -> Result<Json, Seq<char>> {
    match parse(rule) {
        Ok(e) => Ok(eval(o, e, data)),
        Err(msg) => Err(msg),
    }
}

/// What the rule document `rule` gives on `data` that may still grow.
pub open spec fn partly_applied(o: Oracle, rule: Json, data: Json) -> Result<
    Option<Json>,
    Seq<char>,
> {
    match parse(rule) {
        Ok(e) => Ok(partial_eval(o, e, data)),
        Err(msg) => Err(msg),
    }
}

/// The view of what `apply` returns.
pub open spec fn applied_view(r: Result<Value, String>) -> Result<Json, Seq<char>> {
    match r {
        Ok(v) => Ok(v@),
        Err(msg) => Err(msg@),
    }
}

/// The view of what `partial_apply` returns.
pub open spec fn partly_applied_view(r: Result<PartialApplyOutcome, String>) -> Result<
    Option<Json>,
    Seq<char>,
> {
    match r {
        Ok(outcome) => Ok(outcome_view(outcome)),
        Err(msg) => Err(msg@),
    }
}

/// Applies the given JsonLogic rule to the specified data, with `k` as the numeric kernel.
/// If the rule does not use any variables, you may pass `&Value::Null` as the second argument.
/// The only failure is a rule that names an operator that there is not.
pub fn apply<K: Fn(Query) -> Reply>(json_logic: &Value, data: &Value, k: &K) -> (r: Result<
    Value,
    String,
>)
    requires
        is_kernel(*k),
    ensures
        applied_view(r) == applied(answers(*k), json_logic@, data@),
{
    let ast = match Expression::from_json(json_logic) {
        Ok(ast) => ast,
        Err(msg) => {
            return Err(msg);
        },
    };
    let data = Data::from_json(data);
    Ok(ast.compute(&data, k))
}

/// Applies the given JsonLogic rule to data that may still grow, with `k` as the numeric
/// kernel: the outcome is the value of the rule where the data at hand settles it, and
/// `Ambiguous` where it does not.
pub fn partial_apply<K: Fn(Query) -> Reply>(json_logic: &Value, data: &Value, k: &K) -> (r: Result<
    PartialApplyOutcome,
    String,
>)
    requires
        is_kernel(*k),
    ensures
        partly_applied_view(r) == partly_applied(answers(*k), json_logic@, data@),
{
    let ast = match Expression::from_json(json_logic) {
        Ok(ast) => ast,
        Err(msg) => {
            return Err(msg);
        },
    };
    let data = Data::from_json(data);
    let result = match ast.partial_compute(&data, k) {
        Ok(value) => PartialApplyOutcome::Resolved(value),
        Err(_) => PartialApplyOutcome::Ambiguous,
    };
    Ok(result)
}

/// The names of the variables that the rule document reads, each once.
pub fn get_variable_names(json_logic: &Value) -> (r: Result<Vec<String>, String>)
    ensures
        names_view(r) == (match parse(json_logic@) {
            Ok(e) => variable_names(e),
            Err(msg) => Err(msg),
        }),
{
    let ast = match Expression::from_json(json_logic) {
        Ok(ast) => ast,
        Err(msg) => {
            return Err(msg);
        },
    };
    ast.get_variable_names()
}

} // verus!

//! `var`: the value of a variable of the data.

use super::{arg, Operator};
use crate::data::{resolve, Data};
use crate::expression::{exprs_of, outcome_of, partial_result, result, Expression, PartialResult};
use crate::expression::Ambiguous;
use crate::kernel::{answers, is_kernel, Oracle, Query, Reply};
use crate::logic::{number_text, number_to_str};
use crate::value::{Json, Value};
use vstd::prelude::*;

verus! {

/// The path that a value names: a string is the path itself, a number is
/// the path that writes it. No other value names a path.
pub open spec fn path_of(o: Oracle, name: Json) -> Option<Seq<char>> {
    match name {
        Json::String(s) => Some(s),
        Json::Number(n) => Some(number_text(o, n)),
        _ => None,
    }
}

/// The value of the variable that `name` names in the data `d`, where it
/// is present.
pub open spec fn lookup(o: Oracle, name: Json, d: Json) -> Option<Json> {
    match path_of(o, name) {
        Some(path) => resolve(d, path),
        None => None,
    }
}

/// The value of the variable that the first operand names. Where the
/// variable is absent, the value is the second operand, the default;
/// `null` where there is none.
pub open spec fn value(o: Oracle, vals: Seq<Json>, d: Json) -> Json {
    match lookup(o, arg(vals, 0), d) {
        Some(v) => v,
        None => arg(vals, 1),
    }
}

/// The partial result: the value of the variable where it is present.
/// Where it is absent, the default decides; without a default, more data
/// could still bring the variable, so the result is ambiguous. Without
/// any argument the result is `null`.
pub open spec fn partial(o: Oracle, ps: Seq<Option<Json>>, d: Json) -> Option<Json> {
    if ps.len() == 0 {
        Some(Json::Null)
    } else {
        match ps[0] {
            None => None,
            Some(name) => match lookup(o, name, d) {
                Some(v) => Some(v),
                None => if ps.len() >= 2 {
                    ps[1]
                } else {
                    None
                },
            },
        }
    }
}

/// Looks the variable up that `name` names.
fn find<'a, K: Fn(Query) -> Reply>(name: &Value, data: &Data<'a>, k: &K) -> (found: Option<
    &'a Value,
>)
    requires
        is_kernel(*k),
    ensures
        match found {
            Some(v) => lookup(answers(*k), name@, data@) == Some(v@),
            None => lookup(answers(*k), name@, data@) is None,
        },
{
    match name {
        Value::String(path) => data.get_value(path.as_str()),
        Value::Number(n) => {
            let path = number_to_str(*n, k);
            data.get_value(path.as_str())
        },
        _ => None,
    }
}

/// Evaluates the operator on its arguments.
pub fn compute<K: Fn(Query) -> Reply>(args: &[Expression], data: &Data, k: &K) -> (r: Value)
    requires
        is_kernel(*k),
    ensures
        r@ == result(answers(*k), Operator::Variable, exprs_of(args@), data@),
    decreases args@, 3int,
{
    if args.len() == 0 {
        return Value::Null;
    }
    let name = args[0].compute(data, k);
    match find(&name, data, k) {
        Some(v) => v.clone(),
        None => if args.len() >= 2 {
            args[1].compute(data, k)
        } else {
            Value::Null
        },
    }
}

// A variable that is absent and has no default is ambiguous.
pub fn partial_compute<K: Fn(Query) -> Reply>(args: &[Expression], data: &Data, k: &K) -> (r:
    PartialResult)
    requires
        is_kernel(*k),
    ensures
        outcome_of(r) == partial_result(answers(*k), Operator::Variable, exprs_of(args@), data@),
    decreases args@, 3int,
{
    if args.len() == 0 {
        return Ok(Value::Null);
    }
    let name = match args[0].partial_compute(data, k) {
        Ok(name) => name,
        Err(a) => {
            return Err(a);
        },
    };
    match find(&name, data, k) {
        Some(v) => Ok(v.clone()),
        None => if args.len() >= 2 {
            args[1].partial_compute(data, k)
        } else {
            Err(Ambiguous)
        },
    }
}

} // verus!

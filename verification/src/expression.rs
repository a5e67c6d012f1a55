//! Rules as trees of operators, and what a rule evaluates to.

use crate::data::Data;
use crate::kernel::{answers, is_kernel, Oracle, Query, Reply};
use crate::operators::{named, partial_of, value_of, Operator};
use crate::text::push_text;
use crate::value::{array_view, jsons_of, object_view, Json, Value};
use vstd::prelude::*;

verus! {

/// The outcome of a partial evaluation whose result the data at hand
/// does not determine.
#[derive(Debug)]
pub struct Ambiguous;

/// The result of a partial evaluation: a value, or `Ambiguous`.
pub type PartialResult = Result<Value, Ambiguous>;

/// The model of a rule.
pub enum Expr {
    Constant(Json),
    Computed(Operator, Seq<Expr>),
}

/// A rule: a constant of the rule document, or an operator with its
/// arguments.
#[derive(Debug, PartialEq)]
pub enum Expression<'a> {
    Constant(&'a Value),
    Computed(Operator, Vec<Expression<'a>>),
}

/// The model of `e`.
pub open spec fn expr_of(e: Expression) -> Expr
    decreases e,
{
    match e {
        Expression::Constant(v) => Expr::Constant(v@),
        Expression::Computed(op, args) => Expr::Computed(
            op,
            Seq::new(
                args@.len(),
                |i: int|
                    if 0 <= i < args@.len() {
                        expr_of(args@[i])
                    } else {
                        Expr::Constant(Json::Null)
                    },
            ),
        ),
    }
}

impl<'a> View for Expression<'a> {
    type V = Expr;

    open spec fn view(&self) -> Expr {
        expr_of(*self)
    }
}

/// The models of a list of rules, in order.
pub open spec fn exprs_of(args: Seq<Expression>) -> Seq<Expr> {
    Seq::new(args.len(), |i: int| args[i]@)
}

/// The view of an operator node is the operator with its arguments' views.
pub proof fn computed_view(op: Operator, args: Vec<Expression>)
    ensures
        Expression::Computed(op, args)@ == Expr::Computed(op, exprs_of(args@)),
{
    assert(Expression::Computed(op, args)@->Computed_1 =~= exprs_of(args@));
}

/// The rule that a document holds. An object with a single member is an
/// operator with its arguments: the key names the operator, and the
/// value holds the arguments. An array holds one argument per item,
/// `null` holds none, and any other value is itself the one argument.
/// Every other document is a constant. The only failure is a key that
/// names no operator; of several, the first in reading order is reported.
pub open spec fn parse(j: Json) -> Result<Expr, Seq<char>>
    decreases j, 0int,
{
    match j {
        Json::Object(members) if members.len() == 1 => match named(members[0].0) {
            None => Err(unrecognized(members[0].0)),
            Some(op) => match members[0].1 {
                Json::Array(items) => match parse_first(items, items.len() as int) {
                    Ok(args) => Ok(Expr::Computed(op, args)),
                    Err(e) => Err(e),
                },
                Json::Null => Ok(Expr::Computed(op, Seq::<Expr>::empty())),
                single => match parse(single) {
                    Ok(arg) => Ok(Expr::Computed(op, seq![arg])),
                    Err(e) => Err(e),
                },
            },
        },
        _ => Ok(Expr::Constant(j)),
    }
}

/// The rules that the first `n` of the documents hold.
pub open spec fn parse_first(items: Seq<Json>, n: int) -> Result<Seq<Expr>, Seq<char>>
    decreases items, n,
{
    if n <= 0 || n > items.len() {
        Ok(Seq::<Expr>::empty())
    } else {
        match parse_first(items, n - 1) {
            Err(e) => Err(e),
            Ok(before) => match parse(items[n - 1]) {
                Ok(arg) => Ok(before.push(arg)),
                Err(e) => Err(e),
            },
        }
    }
}

/// The message for a key that names no operator.
pub open spec fn unrecognized(key: Seq<char>) -> Seq<char> {
    "Unrecognized operation "@ + key
}

/// What the rule `e` evaluates to on the data `d`. Every rule has a
/// value: a variable that is absent reads as its default, or as `null`.
pub open spec fn eval(o: Oracle, e: Expr, d: Json) -> Json
    decreases e, 1int,
{
    match e {
        Expr::Constant(v) => v,
        Expr::Computed(op, args) => value_of(o, op, evals(o, args, d), d, body_of(o, args)),
    }
}

/// What each of the rules evaluates to on `d`.
pub open spec fn evals(o: Oracle, args: Seq<Expr>, d: Json) -> Seq<Json>
    decreases args, 0int,
{
    Seq::new(
        args.len(),
        |i: int|
            if 0 <= i < args.len() {
                eval(o, args[i], d)
            } else {
                Json::Null
            },
    )
}

/// The second of the rules, as a function of the data it is evaluated
/// on. The operators that work through an array apply it to each item.
pub open spec fn body_of(o: Oracle, args: Seq<Expr>) -> spec_fn(Json) -> Json
    decreases args, 0int,
{
    |x: Json|
        if args.len() >= 2 {
            eval(o, args[1], x)
        } else {
            Json::Null
        }
}

/// What the rule `e` evaluates to on the data `d` when `d` may still
/// grow: a value, or `None` where the result is ambiguous.
pub open spec fn partial_eval(o: Oracle, e: Expr, d: Json) -> Option<Json>
    decreases e, 1int,
{
    match e {
        Expr::Constant(v) => Some(v),
        Expr::Computed(op, args) => partial_of(
            o,
            op,
            partial_evals(o, args, d),
            d,
            partial_body_of(o, args),
        ),
    }
}

/// The partial result of each of the rules on `d`.
pub open spec fn partial_evals(o: Oracle, args: Seq<Expr>, d: Json) -> Seq<Option<Json>>
    decreases args, 0int,
{
    Seq::new(
        args.len(),
        |i: int|
            if 0 <= i < args.len() {
                partial_eval(o, args[i], d)
            } else {
                None
            },
    )
}

/// The second of the rules, as a function from data to partial results.
pub open spec fn partial_body_of(o: Oracle, args: Seq<Expr>) -> spec_fn(Json) -> Option<Json>
    decreases args, 0int,
{
    |x: Json|
        if args.len() >= 2 {
            partial_eval(o, args[1], x)
        } else {
            Some(Json::Null)
        }
}

/// The value of the operator `op` with the arguments `args` on the data
/// `d`.
pub open spec fn result(o: Oracle, op: Operator, args: Seq<Expr>, d: Json) -> Json {
    value_of(o, op, evals(o, args, d), d, body_of(o, args))
}

/// The partial result of the operator `op` with the arguments `args` on
/// the data `d`.
pub open spec fn partial_result(o: Oracle, op: Operator, args: Seq<Expr>, d: Json) -> Option<
    Json,
> {
    partial_of(o, op, partial_evals(o, args, d), d, partial_body_of(o, args))
}

/// The view of a partial result: `None` stands for `Ambiguous`.
pub open spec fn outcome_of(r: PartialResult) -> Option<Json> {
    match r {
        Ok(v) => Some(v@),
        Err(_) => None,
    }
}

/// The view of a parsed rule, or the message.
pub open spec fn parsed_view(r: Result<Expression, String>) -> Result<Expr, Seq<char>> {
    match r {
        Ok(e) => Ok(e@),
        Err(msg) => Err(msg@),
    }
}

impl<'a> Expression<'a> {
    /// Reads the rule that the document `json` holds.
    #[verifier::loop_isolation(false)]
    pub fn from_json(json: &'a Value) -> (r: Result<Expression<'a>, String>)
        ensures
            parsed_view(r) == parse(json@),
        decreases json,
    {
        let object = match json {
            Value::Object(object) => object,
            _ => {
                return Ok(Expression::Constant(json));
            },
        };
        proof {
            object_view(*object);
        }
        // An object with more than one key-value pair, or with none, is returned as it is.
        if object.len() != 1 {
            return Ok(Expression::Constant(json));
        }
        let operator_key: &String = &object[0].0;
        let value: &Value = &object[0].1;
        let operator = match Operator::from_str(operator_key.as_str()) {
            Some(operator) => operator,
            None => {
                let mut message = "Unrecognized operation ".to_owned();
                push_text(&mut message, operator_key.as_str());
                return Err(message);
            },
        };
        let mut arguments: Vec<Expression<'a>> = Vec::new();
        match value {
            Value::Array(arr) => {
                proof {
                    array_view(*arr);
                }
                let ghost items = jsons_of(arr@);
                let mut i: usize = 0;
                assert(exprs_of(arguments@) =~= Seq::<Expr>::empty());
                while i < arr.len()
                    invariant
                        i <= arr.len(),
                        parse_first(items, i as int) == Ok::<Seq<Expr>, Seq<char>>(
                            exprs_of(arguments@),
                        ),
                    decreases arr.len() - i,
                {
                    match Expression::from_json(&arr[i]) {
                        Ok(expr) => {
                            let ghost before = exprs_of(arguments@);
                            arguments.push(expr);
                            assert(exprs_of(arguments@) =~= before.push(expr@));
                        },
                        Err(e) => {
                            proof {
                                parse_fails_for_good(items, i + 1, arr.len() as int);
                            }
                            return Err(e);
                        },
                    }
                    i = i + 1;
                }
            },
            // Interpret as an empty array.
            Value::Null => {
                assert(exprs_of(arguments@) =~= Seq::<Expr>::empty());
            },
            // If the value is not an array we can only assume that this is a shorthand.
            _ => {
                match Expression::from_json(value) {
                    Ok(expr) => {
                        arguments.push(expr);
                        assert(exprs_of(arguments@) =~= seq![expr@]);
                    },
                    Err(e) => {
                        return Err(e);
                    },
                }
            },
        }
        proof {
            computed_view(operator, arguments);
        }
        Ok(Expression::Computed(operator, arguments))
    }

    /// Evaluates the rule on `data`.
    pub fn compute<K: Fn(Query) -> Reply>(&self, data: &Data, k: &K) -> (value: Value)
        requires
            is_kernel(*k),
        ensures
            value@ == eval(answers(*k), self@, data@),
        decreases self, 0int,
    {
        match self {
            Expression::Constant(value) => (*value).clone(),
            Expression::Computed(operator, args) => {
                proof {
                    computed_view(*operator, *args);
                }
                operator.compute(args.as_slice(), data, k)
            },
        }
    }

    /// Evaluates the rule on `data`, which may still grow.
    pub fn partial_compute<K: Fn(Query) -> Reply>(&self, data: &Data, k: &K) -> (result:
        PartialResult)
        requires
            is_kernel(*k),
        ensures
            outcome_of(result) == partial_eval(answers(*k), self@, data@),
        decreases self, 0int,
    {
        match self {
            Expression::Constant(value) => Ok((*value).clone()),
            Expression::Computed(operator, args) => {
                proof {
                    computed_view(*operator, *args);
                }
                operator.partial_compute(args.as_slice(), data, k)
            },
        }
    }
}

/// Once a document fails to parse, so does every longer run of documents.
pub proof fn parse_fails_for_good(items: Seq<Json>, n: int, m: int)
    requires
        0 < n <= m <= items.len(),
        parse_first(items, n) is Err,
    ensures
        parse_first(items, m) == parse_first(items, n),
    decreases m - n,
{
    if n < m {
        parse_fails_for_good(items, n, m - 1);
    }
}

} // verus!

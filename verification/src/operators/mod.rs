//! The operators of the rule language: what each one evaluates to, and
//! what it can say while the data is incomplete.
//!
//! Most operators are plain: they read some of their arguments, first to
//! last, and compute on the values. A plain operator is ambiguous exactly
//! when one of the arguments it reads is. The others (`var`, `if`, `and`,
//! `or`, the range forms of `<=`, `>=` and `jp_ver_le`, and the operators
//! that work through an array) have rules of their own.

use crate::data::Data;
use crate::expression::{
    body_of, evals, exprs_of, outcome_of, partial_body_of, partial_evals, partial_result,
    result, Ambiguous, Expression, PartialResult,
};
use crate::kernel::{answers, is_kernel, Oracle, Query, Reply};
use crate::text::{chars_of, same_chars};
use crate::value::{array_view, jsons_of, Json, Value};
use vstd::prelude::*;

pub mod addition;
pub mod all;
pub mod and;
pub mod cat;
pub mod division;
pub mod double_negation;
pub mod equality;
pub mod filter;
pub mod greater_equal_than;
pub mod greater_than;
pub mod if_else;
pub mod jp_ver_eq;
pub mod jp_ver_gt;
pub mod jp_ver_gteq;
pub mod jp_ver_lt;
pub mod jp_ver_lteq;
pub mod jp_version;
pub mod less_equal_than;
pub mod less_than;
pub mod log;
pub mod map;
pub mod membership;
pub mod merge;
pub mod modulo;
pub mod multiplication;
pub mod negation;
pub mod none;
pub mod not_equal;
pub mod or;
pub mod reduce;
pub mod regex_match;
pub mod some;
pub mod strict_equality;
pub mod strict_not_equal;
pub mod subtraction;
pub mod variable;

verus! {

/// An operator of the rule language.
#[derive(Clone, Copy, Debug, PartialEq, Eq)]
pub enum Operator {
    /// `==`: equality with coercion.
    Equal,
    /// `===`: equality without coercion.
    StrictEqual,
    /// `!=`
    NotEqual,
    /// `!==`
    StrictNotEqual,
    /// `var`: the value of a variable of the data.
    Variable,
    /// `!`
    Negation,
    /// `!!`
    DoubleNegation,
    /// `if` and `?:`
    If,
    /// `or`
    Or,
    /// `and`
    And,
    /// `<`
    LessThan,
    /// `<=`, with three arguments "between, bounds included".
    LessEqualThan,
    /// `>`
    GreaterThan,
    /// `>=`, with three arguments "between, bounds included", downwards.
    GreaterEqualThan,
    /// `+`
    Addition,
    /// `-`
    Subtraction,
    /// `*`
    Multiplication,
    /// `/`
    Division,
    /// `%`
    Modulo,
    /// `map`
    MapEach,
    /// `filter`
    Filter,
    /// `reduce`
    Reduce,
    /// `all`
    All,
    /// `some`
    SomeOf,
    /// `none`
    NoneOf,
    /// `merge`
    Merge,
    /// `in`
    In,
    /// `cat`
    Cat,
    /// `log`
    Log,
    /// `jp_ver_eq`
    JuspayVerEq,
    /// `jp_ver_gt`
    JuspayVerGt,
    /// `jp_ver_lt`
    JuspayVerLt,
    /// `jp_ver_ge`
    JuspayVerGtEq,
    /// `jp_ver_le`, with three arguments "within the range".
    JuspayVerLtEq,
    /// `match`: whether a regular expression finds a match in a text.
    RegexMatch,
}

/// The operand at position `i`; `null` where there is none.
pub open spec fn arg(vals: Seq<Json>, i: int) -> Json {
    if 0 <= i < vals.len() {
        vals[i]
    } else {
        Json::Null
    }
}

/// Whether the first `m` partial results are values.
pub open spec fn all_known(ps: Seq<Option<Json>>, m: int) -> bool {
    forall|i: int| 0 <= i < m && i < ps.len() ==> (#[trigger] ps[i]) is Some
}

/// The first `m` partial results, as values.
pub open spec fn known(ps: Seq<Option<Json>>, m: int) -> Seq<Json> {
    Seq::new(
        if m < 0 {
            0
        } else if m <= ps.len() {
            m as nat
        } else {
            ps.len()
        },
        |i: int|
            match ps[i] {
                Some(v) => v,
                None => Json::Null,
            },
    )
}

/// The smaller of two numbers.
pub open spec fn least(a: int, b: int) -> int {
    if a <= b {
        a
    } else {
        b
    }
}

/// `limit` of the arguments where there are at least `need`, else none.
pub open spec fn from_on(n: int, need: int, limit: int) -> int {
    if n < need {
        0
    } else {
        least(n, limit)
    }
}

/// How many of its `n` arguments the operator reads, from the first on,
/// where it works on values alone. An operator that is given fewer
/// arguments than it needs reads none and has its default value.
pub open spec fn reads(op: Operator, n: int) -> int {
    match op {
        Operator::Equal | Operator::StrictEqual | Operator::NotEqual | Operator::StrictNotEqual
        | Operator::Subtraction => least(n, 2),
        Operator::Negation | Operator::DoubleNegation | Operator::Log => least(n, 1),
        Operator::LessThan | Operator::GreaterThan | Operator::Division | Operator::Modulo
        | Operator::In | Operator::JuspayVerEq | Operator::JuspayVerGt | Operator::JuspayVerLt
        | Operator::JuspayVerGtEq => from_on(n, 2, 2),
        Operator::LessEqualThan | Operator::GreaterEqualThan | Operator::JuspayVerLtEq
        | Operator::RegexMatch => from_on(n, 2, 3),
        _ => n,
    }
}

/// The value of the operator on the operands it reads.
pub open spec fn plain_value(o: Oracle, op: Operator, vals: Seq<Json>) -> Json {
    match op {
        Operator::Equal => equality::value(o, vals),
        Operator::StrictEqual => strict_equality::value(o, vals),
        Operator::NotEqual => not_equal::value(o, vals),
        Operator::StrictNotEqual => strict_not_equal::value(o, vals),
        Operator::Negation => negation::value(vals),
        Operator::DoubleNegation => double_negation::value(vals),
        Operator::LessThan => less_than::value(o, vals),
        Operator::LessEqualThan => less_equal_than::value(o, vals),
        Operator::GreaterThan => greater_than::value(o, vals),
        Operator::GreaterEqualThan => greater_equal_than::value(o, vals),
        Operator::Addition => addition::value(o, vals),
        Operator::Subtraction => subtraction::value(o, vals),
        Operator::Multiplication => multiplication::value(o, vals),
        Operator::Division => division::value(o, vals),
        Operator::Modulo => modulo::value(o, vals),
        Operator::Merge => merge::value(vals),
        Operator::In => membership::value(o, vals),
        Operator::Cat => cat::value(o, vals),
        Operator::Log => log::value(vals),
        Operator::JuspayVerEq => jp_ver_eq::value(o, vals),
        Operator::JuspayVerGt => jp_ver_gt::value(o, vals),
        Operator::JuspayVerLt => jp_ver_lt::value(o, vals),
        Operator::JuspayVerGtEq => jp_ver_gteq::value(o, vals),
        Operator::JuspayVerLtEq => jp_ver_lteq::value(o, vals),
        Operator::RegexMatch => regex_match::value(o, vals),
        _ => Json::Null,
    }
}

/// The value of a plain operator on the values of its arguments.
pub open spec fn plain(o: Oracle, op: Operator, vals: Seq<Json>) -> Json {
    plain_value(o, op, vals.take(reads(op, vals.len() as int)))
}

/// The partial result of a plain operator: its value on the operands it
/// reads where all of them are known, else ambiguous.
pub open spec fn plain_partial(o: Oracle, op: Operator, ps: Seq<Option<Json>>) -> Option<Json> {
    let m = reads(op, ps.len() as int);
    if all_known(ps, m) {
        Some(plain_value(o, op, known(ps, m)))
    } else {
        None
    }
}

/// The relation that a range form chains: `x <= y` for `<=`, `x >= y`
/// for `>=`, and "version `x` is at most version `y`" for `jp_ver_le`.
pub open spec fn holds(o: Oracle, op: Operator, x: Json, y: Json) -> bool {
    match op {
        Operator::GreaterEqualThan => greater_equal_than::related(o, x, y),
        Operator::JuspayVerLtEq => jp_ver_lteq::related(o, x, y),
        _ => less_equal_than::related(o, x, y),
    }
}

/// The partial result of a range form, which has three operands. With
/// all three known it is the value. With one of them ambiguous, the
/// result is `false` where the two known ones already break the chain;
/// in every other case it is ambiguous.
pub open spec fn range_partial(o: Oracle, op: Operator, ps: Seq<Option<Json>>) -> Option<Json> {
    match (ps[0], ps[1], ps[2]) {
        (Some(a), Some(b), Some(c)) => Some(Json::Bool(holds(o, op, a, b) && holds(o, op, b, c))),
        (Some(a), None, Some(c)) if !holds(o, op, a, c) => Some(Json::Bool(false)),
        (None, Some(b), Some(c)) if !holds(o, op, b, c) => Some(Json::Bool(false)),
        (Some(a), Some(b), None) if !holds(o, op, a, b) => Some(Json::Bool(false)),
        _ => None,
    }
}

/// The value of the operator `op`: `vals` are the values of its
/// arguments on the data `d`, and `body` is its second argument as a
/// function of the data.
pub open spec fn value_of(
    o: Oracle,
    op: Operator,
    vals: Seq<Json>,
    d: Json,
    body: spec_fn(Json) -> Json,
) -> Json {
    match op {
        Operator::Variable => variable::value(o, vals, d),
        Operator::If => if_else::value(vals),
        Operator::Or => or::value(vals),
        Operator::And => and::value(vals),
        Operator::MapEach => map::value(vals, body),
        Operator::Filter => filter::value(vals, body),
        Operator::Reduce => reduce::value(vals, body),
        Operator::All => all::value(vals, body),
        Operator::SomeOf => some::value(vals, body),
        Operator::NoneOf => none::value(vals, body),
        _ => plain(o, op, vals),
    }
}

/// The partial result of the operator `op`: `ps` are the partial results
/// of its arguments on the data `d`, and `body` is its second argument
/// as a function from data to partial results.
pub open spec fn partial_of(
    o: Oracle,
    op: Operator,
    ps: Seq<Option<Json>>,
    d: Json,
    body: spec_fn(Json) -> Option<Json>,
) -> Option<Json> {
    match op {
        Operator::Variable => variable::partial(o, ps, d),
        Operator::If => if_else::partial(ps),
        Operator::Or => or::partial(ps),
        Operator::And => and::partial(ps),
        Operator::MapEach => map::partial(ps, body),
        Operator::Filter => filter::partial(ps, body),
        Operator::Reduce => reduce::partial(ps, body),
        Operator::All => all::partial(ps, body),
        Operator::SomeOf => some::partial(ps, body),
        Operator::NoneOf => none::partial(ps, body),
        Operator::LessEqualThan | Operator::GreaterEqualThan | Operator::JuspayVerLtEq => if ps.len()
            >= 3 {
            range_partial(o, op, ps)
        } else {
            plain_partial(o, op, ps)
        },
        _ => plain_partial(o, op, ps),
    }
}

/// The items of a value that is an array.
pub open spec fn array_items(source: Json) -> Option<Seq<Json>> {
    match source {
        Json::Array(items) => Some(items),
        _ => None,
    }
}

/// Whether the body has, for one of the items, a partial result that is
/// a value and counts as `truth`.
pub open spec fn decided(items: Seq<Json>, body: spec_fn(Json) -> Option<Json>, truth: bool) -> bool {
    exists|i: int|
        0 <= i < items.len() && match body(#[trigger] items[i]) {
            Some(v) => crate::logic::truthy(v) == truth,
            None => false,
        }
}

/// Whether the body is ambiguous for one of the items.
pub open spec fn unclear(items: Seq<Json>, body: spec_fn(Json) -> Option<Json>) -> bool {
    exists|i: int| 0 <= i < items.len() && body(#[trigger] items[i]) is None
}

/// The operator that a key of a rule document names.
pub open spec fn named(key: Seq<char>) -> Option<Operator> {
    if key == "=="@ {
        Some(Operator::Equal)
    } else if key == "==="@ {
        Some(Operator::StrictEqual)
    } else if key == "!="@ {
        Some(Operator::NotEqual)
    } else if key == "!=="@ {
        Some(Operator::StrictNotEqual)
    } else if key == "var"@ {
        Some(Operator::Variable)
    } else if key == "!"@ {
        Some(Operator::Negation)
    } else if key == "!!"@ {
        Some(Operator::DoubleNegation)
    } else if key == "if"@ || key == "?:"@ {
        Some(Operator::If)
    } else if key == "or"@ {
        Some(Operator::Or)
    } else if key == "and"@ {
        Some(Operator::And)
    } else if key == "<"@ {
        Some(Operator::LessThan)
    } else if key == "<="@ {
        Some(Operator::LessEqualThan)
    } else if key == ">"@ {
        Some(Operator::GreaterThan)
    } else if key == ">="@ {
        Some(Operator::GreaterEqualThan)
    } else if key == "+"@ {
        Some(Operator::Addition)
    } else if key == "-"@ {
        Some(Operator::Subtraction)
    } else if key == "*"@ {
        Some(Operator::Multiplication)
    } else if key == "/"@ {
        Some(Operator::Division)
    } else if key == "%"@ {
        Some(Operator::Modulo)
    } else if key == "map"@ {
        Some(Operator::MapEach)
    } else if key == "filter"@ {
        Some(Operator::Filter)
    } else if key == "reduce"@ {
        Some(Operator::Reduce)
    } else if key == "all"@ {
        Some(Operator::All)
    } else if key == "some"@ {
        Some(Operator::SomeOf)
    } else if key == "none"@ {
        Some(Operator::NoneOf)
    } else if key == "merge"@ {
        Some(Operator::Merge)
    } else if key == "in"@ {
        Some(Operator::In)
    } else if key == "cat"@ {
        Some(Operator::Cat)
    } else if key == "log"@ {
        Some(Operator::Log)
    } else if key == "jp_ver_eq"@ {
        Some(Operator::JuspayVerEq)
    } else if key == "jp_ver_gt"@ {
        Some(Operator::JuspayVerGt)
    } else if key == "jp_ver_lt"@ {
        Some(Operator::JuspayVerLt)
    } else if key == "jp_ver_ge"@ {
        Some(Operator::JuspayVerGtEq)
    } else if key == "jp_ver_le"@ {
        Some(Operator::JuspayVerLtEq)
    } else if key == "match"@ {
        Some(Operator::RegexMatch)
    } else {
        None
    }
}

/// Evaluates the first `count` of the arguments.
#[verifier::loop_isolation(false)]
pub fn operands<K: Fn(Query) -> Reply>(
    args: &[Expression],
    data: &Data,
    k: &K,
    count: usize,
) -> (vals: Vec<Value>)
    requires
        is_kernel(*k),
        count <= args.len(),
    ensures
        jsons_of(vals@) == evals(answers(*k), exprs_of(args@), data@).take(count as int),
    decreases args@, 1int,
{
    let ghost all = evals(answers(*k), exprs_of(args@), data@);
    let mut vals: Vec<Value> = Vec::new();
    let mut i: usize = 0;
    while i < count
        invariant
            i <= count,
            vals@.len() == i,
            forall|j: int| 0 <= j < i ==> (#[trigger] vals@[j])@ == all[j],
        decreases count - i,
    {
        vals.push(args[i].compute(data, k));
        i = i + 1;
    }
    assert(jsons_of(vals@) =~= all.take(count as int));
    vals
}

/// Evaluates the first `count` of the arguments on data that may still
/// grow. The result is ambiguous where one of them is.
#[verifier::loop_isolation(false)]
pub fn partial_operands<K: Fn(Query) -> Reply>(
    args: &[Expression],
    data: &Data,
    k: &K,
    count: usize,
) -> (vals: Result<Vec<Value>, Ambiguous>)
    requires
        is_kernel(*k),
        count <= args.len(),
    ensures
        match vals {
            Ok(vs) => {
                &&& all_known(partial_evals(answers(*k), exprs_of(args@), data@), count as int)
                &&& jsons_of(vs@) == known(
                    partial_evals(answers(*k), exprs_of(args@), data@),
                    count as int,
                )
            },
            Err(_) => !all_known(
                partial_evals(answers(*k), exprs_of(args@), data@),
                count as int,
            ),
        },
    decreases args@, 1int,
{
    let ghost all = partial_evals(answers(*k), exprs_of(args@), data@);
    let mut vals: Vec<Value> = Vec::new();
    let mut i: usize = 0;
    while i < count
        invariant
            i <= count,
            vals@.len() == i,
            forall|j: int| 0 <= j < i ==> (#[trigger] all[j]) == Some(vals@[j]@),
        decreases count - i,
    {
        match args[i].partial_compute(data, k) {
            Ok(v) => {
                vals.push(v);
            },
            Err(a) => {
                assert(all[i as int] is None);
                return Err(a);
            },
        }
        i = i + 1;
    }
    assert(jsons_of(vals@) =~= known(all, count as int));
    Ok(vals)
}

/// The operand at position `i` of `vals`, or `null` where there is none.
pub fn operand<'a>(vals: &'a [Value], i: usize, null: &'a Value) -> (r: &'a Value)
    requires
        null@ == Json::Null,
    ensures
        r@ == arg(jsons_of(vals@), i as int),
{
    if i < vals.len() {
        &vals[i]
    } else {
        null
    }
}

/// The items of a value that is an array.
pub fn items_of_array(source: Value) -> (r: Option<Vec<Value>>)
    ensures
        match r {
            Some(items) => array_items(source@) == Some(jsons_of(items@)),
            None => array_items(source@) is None,
        },
{
    match source {
        Value::Array(items) => {
            proof {
                array_view(items);
            }
            Some(items)
        },
        _ => None,
    }
}

/// Evaluates the second argument on `item` as the data.
pub fn apply_body<K: Fn(Query) -> Reply>(args: &[Expression], item: &Value, k: &K) -> (value: Value)
    requires
        is_kernel(*k),
    ensures
        value@ == body_of(answers(*k), exprs_of(args@))(item@),
    decreases args@, 2int,
{
    if args.len() >= 2 {
        args[1].compute(&Data::from_json(item), k)
    } else {
        Value::Null
    }
}

/// Evaluates the second argument on `item` as data that may still grow.
pub fn partial_apply_body<K: Fn(Query) -> Reply>(args: &[Expression], item: &Value, k: &K) -> (r:
    PartialResult)
    requires
        is_kernel(*k),
    ensures
        outcome_of(r) == partial_body_of(answers(*k), exprs_of(args@))(item@),
    decreases args@, 2int,
{
    if args.len() >= 2 {
        args[1].partial_compute(&Data::from_json(item), k)
    } else {
        Ok(Value::Null)
    }
}

/// How many of its `n` arguments the operator reads.
pub fn read_count(op: Operator, n: usize) -> (r: usize)
    ensures
        r == reads(op, n as int),
        r <= n,
{
    match op {
        Operator::Equal | Operator::StrictEqual | Operator::NotEqual | Operator::StrictNotEqual
        | Operator::Subtraction => if n <= 2 {
            n
        } else {
            2
        },
        Operator::Negation | Operator::DoubleNegation | Operator::Log => if n <= 1 {
            n
        } else {
            1
        },
        Operator::LessThan | Operator::GreaterThan | Operator::Division | Operator::Modulo
        | Operator::In | Operator::JuspayVerEq | Operator::JuspayVerGt | Operator::JuspayVerLt
        | Operator::JuspayVerGtEq => if n < 2 {
            0
        } else {
            2
        },
        Operator::LessEqualThan | Operator::GreaterEqualThan | Operator::JuspayVerLtEq
        | Operator::RegexMatch => if n < 2 {
            0
        } else if n <= 3 {
            n
        } else {
            3
        },
        _ => n,
    }
}

/// The value of a plain operator on the operands it has read.
pub fn apply<K: Fn(Query) -> Reply>(op: Operator, vals: &[Value], k: &K) -> (value: Value)
    requires
        is_kernel(*k),
    ensures
        value@ == plain_value(answers(*k), op, jsons_of(vals@)),
{
    match op {
        Operator::Equal => equality::compute(vals, k),
        Operator::StrictEqual => strict_equality::apply(vals, k),
        Operator::NotEqual => not_equal::compute(vals, k),
        Operator::StrictNotEqual => strict_not_equal::compute(vals, k),
        Operator::Negation => negation::apply(vals),
        Operator::DoubleNegation => double_negation::apply(vals),
        Operator::LessThan => less_than::compute(vals, k),
        Operator::LessEqualThan => less_equal_than::apply(vals, k),
        Operator::GreaterThan => greater_than::compute(vals, k),
        Operator::GreaterEqualThan => greater_equal_than::apply(vals, k),
        Operator::Addition => addition::compute(vals, k),
        Operator::Subtraction => subtraction::compute(vals, k),
        Operator::Multiplication => multiplication::compute(vals, k),
        Operator::Division => division::apply(vals, k),
        Operator::Modulo => modulo::compute(vals, k),
        Operator::Merge => merge::compute(vals),
        Operator::In => membership::compute(vals, k),
        Operator::Cat => cat::compute(vals, k),
        Operator::Log => log::apply(vals),
        Operator::JuspayVerEq => jp_ver_eq::apply(vals, k),
        Operator::JuspayVerGt => jp_ver_gt::apply(vals, k),
        Operator::JuspayVerLt => jp_ver_lt::compute(vals, k),
        Operator::JuspayVerGtEq => jp_ver_gteq::compute(vals, k),
        Operator::JuspayVerLtEq => jp_ver_lteq::apply(vals, k),
        Operator::RegexMatch => regex_match::apply(vals, k),
        _ => Value::Null,
    }
}

/// Evaluates a plain operator: the arguments it reads, then the operator
/// on their values.
pub fn compute_plain<K: Fn(Query) -> Reply>(
    op: Operator,
    args: &[Expression],
    data: &Data,
    k: &K,
) -> (value: Value)
    requires
        is_kernel(*k),
    ensures
        value@ == plain(answers(*k), op, evals(answers(*k), exprs_of(args@), data@)),
    decreases args@, 2int,
{
    let vals = operands(args, data, k, read_count(op, args.len()));
    apply(op, vals.as_slice(), k)
}

/// Evaluates a plain operator on data that may still grow: ambiguous
/// where one of the arguments it reads is.
pub fn partial_compute_plain<K: Fn(Query) -> Reply>(
    op: Operator,
    args: &[Expression],
    data: &Data,
    k: &K,
) -> (r: PartialResult)
    requires
        is_kernel(*k),
    ensures
        outcome_of(r) == plain_partial(
            answers(*k),
            op,
            partial_evals(answers(*k), exprs_of(args@), data@),
        ),
    decreases args@, 2int,
{
    match partial_operands(args, data, k, read_count(op, args.len())) {
        Ok(vals) => Ok(apply(op, vals.as_slice(), k)),
        Err(a) => Err(a),
    }
}

/// Evaluates a range form on data that may still grow. There are at
/// least three arguments.
pub fn partial_compute_range<K: Fn(Query) -> Reply>(
    op: Operator,
    args: &[Expression],
    data: &Data,
    k: &K,
) -> (r: PartialResult)
    requires
        is_kernel(*k),
        args.len() >= 3,
        op == Operator::LessEqualThan || op == Operator::GreaterEqualThan || op
            == Operator::JuspayVerLtEq,
    ensures
        outcome_of(r) == range_partial(
            answers(*k),
            op,
            partial_evals(answers(*k), exprs_of(args@), data@),
        ),
    decreases args@, 2int,
{
    let first = args[0].partial_compute(data, k);
    let second = args[1].partial_compute(data, k);
    let third = args[2].partial_compute(data, k);
    match (first, second, third) {
        (Ok(a), Ok(b), Ok(c)) => Ok(
            Value::Bool(related(op, &a, &b, k) && related(op, &b, &c, k)),
        ),
        (Ok(arg1), Err(_), Ok(arg2)) | (Err(_), Ok(arg1), Ok(arg2)) | (Ok(arg1), Ok(arg2), Err(_)) => {
            if !related(op, &arg1, &arg2, k) {
                Ok(Value::Bool(false))
            } else {
                Err(Ambiguous)
            }
        },
        _ => Err(Ambiguous),
    }
}

/// Whether the relation of a range form holds of `x` and `y`.
pub fn related<K: Fn(Query) -> Reply>(op: Operator, x: &Value, y: &Value, k: &K) -> (r: bool)
    requires
        is_kernel(*k),
    ensures
        r == holds(answers(*k), op, x@, y@),
{
    match op {
        Operator::GreaterEqualThan => greater_equal_than::is_related(x, y, k),
        Operator::JuspayVerLtEq => jp_ver_lteq::is_related(x, y, k),
        _ => less_equal_than::is_related(x, y, k),
    }
}

impl Operator {
    /// The operator that `key` names.
    pub fn from_str(key: &str) -> (op: Option<Operator>)
        ensures
            op == named(key@),
    {
        let cs = chars_of(key);
        let s = cs.as_slice();
        if same_chars(s, chars_of("==").as_slice()) {
            Some(Operator::Equal)
        } else if same_chars(s, chars_of("===").as_slice()) {
            Some(Operator::StrictEqual)
        } else if same_chars(s, chars_of("!=").as_slice()) {
            Some(Operator::NotEqual)
        } else if same_chars(s, chars_of("!==").as_slice()) {
            Some(Operator::StrictNotEqual)
        } else if same_chars(s, chars_of("var").as_slice()) {
            Some(Operator::Variable)
        } else if same_chars(s, chars_of("!").as_slice()) {
            Some(Operator::Negation)
        } else if same_chars(s, chars_of("!!").as_slice()) {
            Some(Operator::DoubleNegation)
        } else if same_chars(s, chars_of("if").as_slice()) || same_chars(
            s,
            chars_of("?:").as_slice(),
        ) {
            Some(Operator::If)
        } else if same_chars(s, chars_of("or").as_slice()) {
            Some(Operator::Or)
        } else if same_chars(s, chars_of("and").as_slice()) {
            Some(Operator::And)
        } else if same_chars(s, chars_of("<").as_slice()) {
            Some(Operator::LessThan)
        } else if same_chars(s, chars_of("<=").as_slice()) {
            Some(Operator::LessEqualThan)
        } else if same_chars(s, chars_of(">").as_slice()) {
            Some(Operator::GreaterThan)
        } else if same_chars(s, chars_of(">=").as_slice()) {
            Some(Operator::GreaterEqualThan)
        } else if same_chars(s, chars_of("+").as_slice()) {
            Some(Operator::Addition)
        } else if same_chars(s, chars_of("-").as_slice()) {
            Some(Operator::Subtraction)
        } else if same_chars(s, chars_of("*").as_slice()) {
            Some(Operator::Multiplication)
        } else if same_chars(s, chars_of("/").as_slice()) {
            Some(Operator::Division)
        } else if same_chars(s, chars_of("%").as_slice()) {
            Some(Operator::Modulo)
        } else if same_chars(s, chars_of("map").as_slice()) {
            Some(Operator::MapEach)
        } else if same_chars(s, chars_of("filter").as_slice()) {
            Some(Operator::Filter)
        } else if same_chars(s, chars_of("reduce").as_slice()) {
            Some(Operator::Reduce)
        } else if same_chars(s, chars_of("all").as_slice()) {
            Some(Operator::All)
        } else if same_chars(s, chars_of("some").as_slice()) {
            Some(Operator::SomeOf)
        } else if same_chars(s, chars_of("none").as_slice()) {
            Some(Operator::NoneOf)
        } else if same_chars(s, chars_of("merge").as_slice()) {
            Some(Operator::Merge)
        } else if same_chars(s, chars_of("in").as_slice()) {
            Some(Operator::In)
        } else if same_chars(s, chars_of("cat").as_slice()) {
            Some(Operator::Cat)
        } else if same_chars(s, chars_of("log").as_slice()) {
            Some(Operator::Log)
        } else if same_chars(s, chars_of("jp_ver_eq").as_slice()) {
            Some(Operator::JuspayVerEq)
        } else if same_chars(s, chars_of("jp_ver_gt").as_slice()) {
            Some(Operator::JuspayVerGt)
        } else if same_chars(s, chars_of("jp_ver_lt").as_slice()) {
            Some(Operator::JuspayVerLt)
        } else if same_chars(s, chars_of("jp_ver_ge").as_slice()) {
            Some(Operator::JuspayVerGtEq)
        } else if same_chars(s, chars_of("jp_ver_le").as_slice()) {
            Some(Operator::JuspayVerLtEq)
        } else if same_chars(s, chars_of("match").as_slice()) {
            Some(Operator::RegexMatch)
        } else {
            None
        }
    }

    /// Evaluates the operator on its arguments.
    pub fn compute<K: Fn(Query) -> Reply>(&self, args: &[Expression], data: &Data, k: &K) -> (value:
        Value)
        requires
            is_kernel(*k),
        ensures
            value@ == result(answers(*k), *self, exprs_of(args@), data@),
        decreases args@, 4int,
    {
        match self {
            Operator::Variable => variable::compute(args, data, k),
            Operator::If => if_else::compute(args, data, k),
            Operator::Or => or::compute(args, data, k),
            Operator::And => and::compute(args, data, k),
            Operator::MapEach => map::compute(args, data, k),
            Operator::Filter => filter::compute(args, data, k),
            Operator::Reduce => reduce::compute(args, data, k),
            Operator::All => all::compute(args, data, k),
            Operator::SomeOf => some::compute(args, data, k),
            Operator::NoneOf => none::compute(args, data, k),
            Operator::StrictEqual => strict_equality::compute(args, data, k),
            Operator::Negation => negation::compute(args, data, k),
            Operator::DoubleNegation => double_negation::compute(args, data, k),
            Operator::Log => log::compute(args, data, k),
            Operator::Division => division::compute(args, data, k),
            Operator::LessEqualThan => less_equal_than::compute(args, data, k),
            Operator::GreaterEqualThan => greater_equal_than::compute(args, data, k),
            Operator::JuspayVerEq => jp_ver_eq::compute(args, data, k),
            Operator::JuspayVerGt => jp_ver_gt::compute(args, data, k),
            Operator::JuspayVerLtEq => jp_ver_lteq::compute(args, data, k),
            Operator::RegexMatch => regex_match::compute(args, data, k),
            _ => compute_plain(*self, args, data, k),
        }
    }

    /// Evaluates the operator on its arguments, on data that may still
    /// grow.
    pub fn partial_compute<K: Fn(Query) -> Reply>(
        &self,
        args: &[Expression],
        data: &Data,
        k: &K,
    ) -> (r: PartialResult)
        requires
            is_kernel(*k),
        ensures
            outcome_of(r) == partial_result(answers(*k), *self, exprs_of(args@), data@),
        decreases args@, 4int,
    {
        match self {
            Operator::Variable => variable::partial_compute(args, data, k),
            Operator::If => if_else::partial_compute(args, data, k),
            Operator::Or => or::partial_compute(args, data, k),
            Operator::And => and::partial_compute(args, data, k),
            Operator::MapEach => map::partial_compute(args, data, k),
            Operator::Filter => filter::partial_compute(args, data, k),
            Operator::Reduce => reduce::partial_compute(args, data, k),
            Operator::All => all::partial_compute(args, data, k),
            Operator::SomeOf => some::partial_compute(args, data, k),
            Operator::NoneOf => none::partial_compute(args, data, k),
            Operator::StrictEqual => strict_equality::partial_compute(args, data, k),
            Operator::Negation => negation::partial_compute(args, data, k),
            Operator::DoubleNegation => double_negation::partial_compute(args, data, k),
            Operator::Log => log::partial_compute(args, data, k),
            Operator::Division => division::partial_compute(args, data, k),
            Operator::LessEqualThan => less_equal_than::partial_compute(args, data, k),
            Operator::GreaterEqualThan => greater_equal_than::partial_compute(args, data, k),
            Operator::JuspayVerGt => jp_ver_gt::partial_compute(args, data, k),
            Operator::JuspayVerLtEq => jp_ver_lteq::partial_compute(args, data, k),
            Operator::RegexMatch => regex_match::partial_compute(args, data, k),
            _ => partial_compute_plain(*self, args, data, k),
        }
    }
}

} // verus!

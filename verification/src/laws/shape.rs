//! The forms of rules and data that the laws speak of.

use crate::data::resolve;
use crate::expression::{
    body_of, eval, evals, partial_body_of, partial_eval, partial_evals, Expr,
};
use crate::kernel::Oracle;
use crate::logic::truthy;
use crate::operators::reduce::{context, partly_gathered};
use crate::operators::variable::lookup;
use crate::operators::{arg, decided, holds, partial_of, reads, Operator};
use crate::value::Json;
use vstd::prelude::*;

verus! {

/// Whether `later` completes `data`: every variable that is present in
/// `data` is present in `later` with the same value. All that `later`
/// adds are variables that `data` lacks.
pub open spec fn completes(data: Json, later: Json) -> bool {
    forall|path: Seq<char>|
        (#[trigger] resolve(data, path)) is Some ==> resolve(later, path) == resolve(data, path)
}

/// Whether the operator evaluates its second argument on the items of an
/// array, not on the data.
pub open spec fn scoped(op: Operator) -> bool {
    match op {
        Operator::MapEach
        | Operator::Filter
        | Operator::Reduce
        | Operator::All
        | Operator::SomeOf
        | Operator::NoneOf => true,
        _ => false,
    }
}

/// Whether the operator has a range form with three arguments.
pub open spec fn ranged(op: Operator) -> bool {
    match op {
        Operator::LessEqualThan | Operator::GreaterEqualThan | Operator::JuspayVerLtEq => true,
        _ => false,
    }
}

/// Whether the operator always gives `true` or `false`.
pub open spec fn of_truth(op: Operator) -> bool {
    match op {
        Operator::Equal
        | Operator::StrictEqual
        | Operator::NotEqual
        | Operator::StrictNotEqual
        | Operator::Negation
        | Operator::DoubleNegation
        | Operator::LessThan
        | Operator::LessEqualThan
        | Operator::GreaterThan
        | Operator::GreaterEqualThan
        | Operator::All
        | Operator::SomeOf
        | Operator::NoneOf
        | Operator::In
        | Operator::JuspayVerEq
        | Operator::JuspayVerGt
        | Operator::JuspayVerLt
        | Operator::JuspayVerGtEq
        | Operator::JuspayVerLtEq
        | Operator::RegexMatch => true,
        _ => false,
    }
}

/// Whether the rule can only give `true` or `false`: it is one of these
/// constants, an operator that always gives one of them, or an `and` or
/// `or` of such rules.
pub open spec fn boolean(e: Expr) -> bool
    decreases e,
{
    match e {
        Expr::Constant(v) => v is Bool,
        Expr::Computed(op, args) => of_truth(op) || ((op == Operator::And || op == Operator::Or)
            && args.len() >= 1 && forall|i: int|
            0 <= i < args.len() ==> boolean(#[trigger] args[i])),
    }
}

/// Whether no operand that is ambiguous comes before an operand that is
/// known to count as `truth`.
pub open spec fn unrushed(ps: Seq<Option<Json>>, truth: bool) -> bool {
    forall|i: int, j: int|
        0 <= i < j < ps.len() && (#[trigger] ps[i]) is None ==> !((#[trigger] ps[j]) matches Some(
            v,
        ) && truthy(v) == truth)
}

/// Whether a range form on these partial results gives `false` for
/// bounds that are out of order, with the operand between them still
/// ambiguous.
pub open spec fn rushed_range(o: Oracle, op: Operator, ps: Seq<Option<Json>>) -> bool {
    match (ps[0], ps[1], ps[2]) {
        (Some(a), None, Some(c)) => !holds(o, op, a, c),
        _ => false,
    }
}

/// The items that the operator `op` works through, with `source` as its
/// first operand: those of an array, and for `all` the characters of a
/// string too.
pub open spec fn items_through(op: Operator, source: Json) -> Seq<Json> {
    match (
        if op == Operator::All {
            crate::operators::all::items_of(source)
        } else {
            crate::operators::array_items(source)
        }
    ) {
        Some(items) => items,
        None => Seq::<Json>::empty(),
    }
}

/// Whether no operand from position `i` up to `j` is known to count as
/// `truth`.
pub open spec fn first_known(ps: Seq<Option<Json>>, i: int, j: int, truth: bool) -> bool {
    forall|m: int| i <= m < j ==> !((#[trigger] ps[m]) matches Some(w) && truthy(w) == truth)
}

/// Whether `if`, read from position `i` on, reads the operand at
/// position `k`: it reads the conditions up to the first that is
/// ambiguous or holds, the value that belongs to a condition that holds,
/// and the last operand where no condition holds.
pub open spec fn taken(ps: Seq<Option<Json>>, i: int, k: int) -> bool
    decreases ps.len() - i,
{
    if i < 0 || i >= ps.len() {
        false
    } else if i + 1 >= ps.len() {
        k == i
    } else {
        k == i || match ps[i] {
            None => false,
            Some(c) => if truthy(c) {
                k == i + 1
            } else {
                taken(ps, i + 2, k)
            },
        }
    }
}

/// Whether the partial result of the operator depends on its operand at
/// position `i`:
///
/// - a plain operator and a range form depend on the operands they read;
/// - `and` and `or` on the operands up to the first that is known to
///   decide;
/// - `if` on the conditions it reads and on the value it takes;
/// - `var` on the name, and on the default where the variable is absent;
/// - an operator that works through an array on the array, and `reduce`
///   on its start value. (Their second argument is read on the items.)
pub open spec fn depends_on(o: Oracle, op: Operator, ps: Seq<Option<Json>>, d: Json, i: int) -> bool {
    match op {
        Operator::Variable => i == 0 || (i == 1 && ps.len() >= 1 && (ps[0] matches Some(name)
            && lookup(o, name, d) is None)),
        Operator::If => taken(ps, 0, i),
        Operator::And => first_known(ps, 0, i, false),
        Operator::Or => first_known(ps, 0, i, true),
        Operator::MapEach | Operator::Filter | Operator::All | Operator::SomeOf | Operator::NoneOf => i
            == 0,
        Operator::Reduce => i == 0 || i == 2,
        _ => i < reads(op, ps.len() as int),
    }
}

/// The truth of the second argument on an item that decides the
/// operator, whatever it is on the other items: `false` for `all`,
/// `true` for `some` and `none`.
pub open spec fn deciding(op: Operator) -> bool {
    op != Operator::All
}

/// Whether the partial evaluation of the rule `e` on the data `d`, where
/// it gives a value, takes none of the three steps that later data can
/// overturn. `fixed` says that the data cannot grow, as it is for the
/// items of an array. The three steps are:
///
/// - a `var` takes its default, on data that can grow: the variable may
///   still come, with another value;
/// - an `and` or `or` is decided by an operand that follows an ambiguous
///   one, and the operands are not all boolean: the ambiguous operand may
///   turn out to decide, with a value of its own;
/// - a range form is `false` because its bounds are out of order, with
///   the operand between them ambiguous: the orderings of this language
///   are not transitive, so the operand may still fit both bounds.
///
/// Only the operands that the partial result depends on count. Where an
/// item of an array decides, one such item whose evaluation is steady is
/// enough.
pub open spec fn steady(o: Oracle, e: Expr, d: Json, fixed: bool) -> bool
    decreases e, 0int, 0nat,
{
    match e {
        Expr::Constant(_) => true,
        Expr::Computed(op, args) => {
            let ps = partial_evals(o, args, d);
            partial_of(o, op, ps, d, partial_body_of(o, args)) is Some ==> {
                &&& forall|i: int|
                    0 <= i < args.len() && depends_on(o, op, ps, d, i) ==> steady(
                        o,
                        #[trigger] args[i],
                        d,
                        fixed,
                    )
                &&& op == Operator::Variable && args.len() >= 2 && !fixed ==> (ps[0] matches Some(
                    name,
                ) ==> lookup(o, name, d) is Some)
                &&& op == Operator::And && args.len() >= 2 ==> unrushed(ps, false) || forall|i: int|
                    0 <= i < args.len() ==> boolean(#[trigger] args[i])
                &&& op == Operator::Or && args.len() >= 2 ==> unrushed(ps, true) || forall|i: int|
                    0 <= i < args.len() ==> boolean(#[trigger] args[i])
                &&& ranged(op) && args.len() >= 3 ==> !rushed_range(o, op, ps)
                &&& scoped(op) && args.len() >= 2 ==> (ps[0] matches Some(source) ==> steady_body(
                    o,
                    op,
                    args,
                    items_through(op, source),
                    if args.len() >= 3 {
                        ps[2]
                    } else {
                        Some(Json::Null)
                    },
                ))
            }
        },
    }
}

/// Whether the partial evaluation of the second of the rules `args` is
/// steady where the operator `op` depends on it: on an item that
/// decides where there is one, else on all items; for `reduce`, at all
/// steps from the start value `first`.
pub open spec fn steady_body(
    o: Oracle,
    op: Operator,
    args: Seq<Expr>,
    items: Seq<Json>,
    first: Option<Json>,
) -> bool
    decreases args, 3int, 0nat,
{
    match op {
        Operator::Reduce => first matches Some(start) ==> steady_in_steps(o, args, items, start),
        Operator::All | Operator::SomeOf | Operator::NoneOf => if decided(
            items,
            partial_body_of(o, args),
            deciding(op),
        ) {
            steady_on_one(o, args, items, deciding(op))
        } else {
            steady_in_items(o, args, items)
        },
        _ => steady_in_items(o, args, items),
    }
}

/// Whether the second of the rules `args` is known to count as `truth`
/// on one of the items on which its partial evaluation is steady.
pub open spec fn steady_on_one(o: Oracle, args: Seq<Expr>, items: Seq<Json>, truth: bool) -> bool
    decreases args, 1int, 0nat,
{
    args.len() >= 2 && exists|i: int|
        0 <= i < items.len() && steady(o, args[1], #[trigger] items[i], true) && (partial_eval(
            o,
            args[1],
            items[i],
        ) matches Some(v) && truthy(v) == truth)
}

/// Whether the partial evaluation of the second of the rules `args` is
/// steady on each of the items.
pub open spec fn steady_in_items(o: Oracle, args: Seq<Expr>, items: Seq<Json>) -> bool
    decreases args, 1int, 0nat,
{
    args.len() >= 2 ==> forall|i: int|
        0 <= i < items.len() ==> steady(o, args[1], #[trigger] items[i], true)
}

/// Whether the partial evaluation of the second of the rules `args` is
/// steady at each step of a `reduce` through the items that starts from
/// `first`, as far as the steps have values.
pub open spec fn steady_in_steps(o: Oracle, args: Seq<Expr>, items: Seq<Json>, first: Json) -> bool
    decreases args, 2int, items.len(),
{
    if items.len() == 0 || args.len() < 2 {
        true
    } else {
        &&& steady_in_steps(o, args, items.drop_last(), first)
        &&& partly_gathered(items.drop_last(), partial_body_of(o, args), first) matches Some(
            so_far,
        ) ==> steady(o, args[1], context(items.last(), so_far), true)
    }
}

/// Whether no variable that the rule `e` reads is absent from the data
/// `d`. Where an operator works through an array, its second argument
/// reads its variables from the items: for `reduce`, from the item and
/// what was gathered before it.
pub open spec fn all_present(o: Oracle, e: Expr, d: Json) -> bool
    decreases e, 0int, 0nat,
{
    match e {
        Expr::Constant(_) => true,
        Expr::Computed(op, args) => {
            &&& forall|i: int|
                0 <= i < args.len() && !(scoped(op) && i == 1) ==> all_present(
                    o,
                    #[trigger] args[i],
                    d,
                )
            &&& op == Operator::Variable && args.len() >= 1 ==> lookup(o, eval(o, args[0], d), d)
                is Some
            &&& scoped(op) && args.len() >= 2 ==> if op == Operator::Reduce {
                present_in_steps(
                    o,
                    args,
                    items_through(op, eval(o, args[0], d)),
                    arg(evals(o, args, d), 2),
                )
            } else {
                present_in_items(o, args, items_through(op, eval(o, args[0], d)))
            }
        },
    }
}

/// Whether no variable that the second of the rules `args` reads is
/// absent from any of the items.
pub open spec fn present_in_items(o: Oracle, args: Seq<Expr>, items: Seq<Json>) -> bool
    decreases args, 1int, 0nat,
{
    args.len() >= 2 ==> forall|i: int|
        0 <= i < items.len() ==> all_present(o, args[1], #[trigger] items[i])
}

/// Whether no variable that the second of the rules `args` reads is
/// absent at any step of a `reduce` through the items that starts from
/// `first`.
pub open spec fn present_in_steps(o: Oracle, args: Seq<Expr>, items: Seq<Json>, first: Json) -> bool
    decreases args, 2int, items.len(),
{
    if items.len() == 0 || args.len() < 2 {
        true
    } else {
        &&& present_in_steps(o, args, items.drop_last(), first)
        &&& all_present(
            o,
            args[1],
            crate::operators::reduce::context(
                items.last(),
                crate::operators::reduce::gathered(items.drop_last(), body_of(o, args), first),
            ),
        )
    }
}

} // verus!

//! Agreement: on data that lacks no variable, partial evaluation gives
//! what evaluation gives.

use super::shape::{all_present, items_through, present_in_items, present_in_steps, ranged, scoped};
use crate::expression::{
    body_of, eval, evals, parse, partial_body_of, partial_eval, partial_evals, Expr,
};
use crate::kernel::Oracle;
use crate::operators::filter::{kept, passes};
use crate::operators::reduce::{context, gathered, partly_gathered};
use crate::operators::variable::lookup;
use crate::operators::{
    and, arg, decided, if_else, known, or, partial_of, plain, plain_partial, reads, unclear,
    value_of, Operator,
};
use crate::logic::truthy;
use crate::value::Json;
use crate::{applied, partly_applied};
use vstd::prelude::*;

verus! {

/// Whether each partial result is the value at its position. With
/// `but_body`, nothing is said of the second position.
pub open spec fn agree(ps: Seq<Option<Json>>, fs: Seq<Json>, but_body: bool) -> bool {
    &&& ps.len() == fs.len()
    &&& forall|i: int| 0 <= i < ps.len() && !(but_body && i == 1) ==> (#[trigger] ps[i]) == Some(fs[i])
}

/// Whether the partial body gives on each item what the body gives.
pub open spec fn agree_on(
    items: Seq<Json>,
    partial_body: spec_fn(Json) -> Option<Json>,
    body: spec_fn(Json) -> Json,
) -> bool {
    forall|i: int| 0 <= i < items.len() ==> partial_body(#[trigger] items[i]) == Some(body(items[i]))
}

/// Whether the partial body gives at each step of a `reduce` what the
/// body gives.
pub open spec fn agree_in_steps(
    items: Seq<Json>,
    partial_body: spec_fn(Json) -> Option<Json>,
    body: spec_fn(Json) -> Json,
    first: Json,
) -> bool
    decreases items.len(),
{
    if items.len() == 0 {
        true
    } else {
        let step = context(items.last(), gathered(items.drop_last(), body, first));
        agree_in_steps(items.drop_last(), partial_body, body, first) && partial_body(step) == Some(
            body(step),
        )
    }
}

/// A plain operator agrees.
proof fn plain_agrees(o: Oracle, op: Operator, ps: Seq<Option<Json>>, fs: Seq<Json>)
    requires
        agree(ps, fs, false),
    ensures
        plain_partial(o, op, ps) == Some(plain(o, op, fs)),
{
    let m = reads(op, ps.len() as int);
    assert(known(ps, m) =~= fs.take(m));
}

/// `if` agrees, from every position on.
proof fn if_agrees(ps: Seq<Option<Json>>, fs: Seq<Json>, i: int)
    requires
        agree(ps, fs, false),
        0 <= i,
    ensures
        if_else::partial_chain(ps, i) == Some(if_else::chain(fs, i)),
    decreases ps.len() - i,
{
    if i + 1 < ps.len() {
        if_agrees(ps, fs, i + 2);
    }
}

/// `and` agrees, from every position on.
proof fn and_agrees(ps: Seq<Option<Json>>, fs: Seq<Json>, i: int, last: Option<Json>)
    requires
        agree(ps, fs, false),
        0 <= i < ps.len(),
    ensures
        and::partial_scan(ps, i, false, last) == Some(and::scan(fs, i)),
    decreases ps.len() - i,
{
    if i + 1 < ps.len() {
        and_agrees(ps, fs, i + 1, Some(fs[i]));
    } else {
        assert(and::partial_scan(ps, i + 1, false, Some(fs[i])) == Some(fs[i]));
    }
}

/// `or` agrees, from every position on.
proof fn or_agrees(ps: Seq<Option<Json>>, fs: Seq<Json>, i: int, last: Option<Json>)
    requires
        agree(ps, fs, false),
        0 <= i < ps.len(),
    ensures
        or::partial_scan(ps, i, false, last) == Some(or::scan(fs, i)),
    decreases ps.len() - i,
{
    if i + 1 < ps.len() {
        or_agrees(ps, fs, i + 1, Some(fs[i]));
    } else {
        assert(or::partial_scan(ps, i + 1, false, Some(fs[i])) == Some(fs[i]));
    }
}

/// Where the body agrees on the items, the same items are kept.
pub proof fn kept_agrees(
    items: Seq<Json>,
    partial_body: spec_fn(Json) -> Option<Json>,
    body: spec_fn(Json) -> Json,
)
    requires
        agree_on(items, partial_body, body),
    ensures
        kept(items, |x: Json| passes(partial_body(x))) == kept(items, |x: Json| truthy(body(x))),
    decreases items.len(),
{
    if items.len() > 0 {
        let shorter = items.drop_last();
        assert forall|i: int| 0 <= i < shorter.len() implies partial_body(#[trigger] shorter[i])
            == Some(body(shorter[i])) by {
            assert(shorter[i] == items[i]);
        }
        kept_agrees(shorter, partial_body, body);
        assert(items.last() == items[items.len() - 1]);
    }
}

/// Where the body agrees at each step, what is gathered agrees.
proof fn gathered_agrees(
    items: Seq<Json>,
    partial_body: spec_fn(Json) -> Option<Json>,
    body: spec_fn(Json) -> Json,
    first: Json,
)
    requires
        agree_in_steps(items, partial_body, body, first),
    ensures
        partly_gathered(items, partial_body, first) == Some(gathered(items, body, first)),
    decreases items.len(),
{
    if items.len() > 0 {
        gathered_agrees(items.drop_last(), partial_body, body, first);
    }
}

/// Every operator agrees: where the partial results of its arguments are
/// their values, the variable it reads is present and the body agrees on
/// the items it is applied to, the partial result of the operator is its
/// value.
pub proof fn operator_agrees(
    o: Oracle,
    op: Operator,
    ps: Seq<Option<Json>>,
    fs: Seq<Json>,
    d: Json,
    partial_body: spec_fn(Json) -> Option<Json>,
    body: spec_fn(Json) -> Json,
)
    requires
        agree(ps, fs, scoped(op)),
        op == Operator::Variable && ps.len() >= 1 ==> lookup(o, fs[0], d) is Some,
        scoped(op) && ps.len() >= 2 ==> if op == Operator::Reduce {
            agree_in_steps(items_through(op, fs[0]), partial_body, body, arg(fs, 2))
        } else {
            agree_on(items_through(op, fs[0]), partial_body, body)
        },
    ensures
        partial_of(o, op, ps, d, partial_body) == Some(value_of(o, op, fs, d, body)),
{
    match op {
        Operator::Variable => {},
        Operator::If => {
            if_agrees(ps, fs, 0);
        },
        Operator::And => {
            if ps.len() > 0 {
                and_agrees(ps, fs, 0, None);
            }
        },
        Operator::Or => {
            if ps.len() > 0 {
                or_agrees(ps, fs, 0, None);
            }
        },
        Operator::All | Operator::SomeOf | Operator::NoneOf => {
            if ps.len() >= 2 {
                let items = items_through(op, fs[0]);
                assert(!unclear(items, partial_body));
                if decided(items, partial_body, true) {
                    let i = choose|i: int|
                        0 <= i < items.len() && match partial_body(#[trigger] items[i]) {
                            Some(v) => truthy(v) == true,
                            None => false,
                        };
                    assert(truthy(body(items[i])));
                }
                if decided(items, partial_body, false) {
                    let i = choose|i: int|
                        0 <= i < items.len() && match partial_body(#[trigger] items[i]) {
                            Some(v) => truthy(v) == false,
                            None => false,
                        };
                    assert(!truthy(body(items[i])));
                }
            }
        },
        Operator::Filter => {
            if ps.len() >= 2 {
                let items = items_through(op, fs[0]);
                kept_agrees(items, partial_body, body);
                assert(!unclear(items, partial_body));
            }
        },
        Operator::MapEach => {
            if ps.len() >= 2 {
                let items = items_through(op, fs[0]);
                assert(!unclear(items, partial_body));
                assert(Seq::new(items.len(), |i: int| crate::operators::map::settled(partial_body(items[i])))
                    =~= Seq::new(items.len(), |i: int| body(items[i])));
            }
        },
        Operator::Reduce => {
            if ps.len() >= 2 {
                let items = items_through(op, fs[0]);
                gathered_agrees(items, partial_body, body, arg(fs, 2));
            }
        },
        _ => {
            if ranged(op) && ps.len() >= 3 {
                assert(fs.take(3) =~= seq![fs[0], fs[1], fs[2]]);
            } else {
                plain_agrees(o, op, ps, fs);
            }
        },
    }
}

/// Agreement for rules: where no variable that the rule `e` reads is
/// absent from the data `d`, the partial result of `e` on `d` is the
/// value of `e` on `d`.
pub proof fn evaluation_agrees(o: Oracle, e: Expr, d: Json)
    requires
        all_present(o, e, d),
    ensures
        partial_eval(o, e, d) == Some(eval(o, e, d)),
    decreases e, 0int, 0nat,
{
    match e {
        Expr::Constant(_) => {},
        Expr::Computed(op, args) => {
            let ps = partial_evals(o, args, d);
            let fs = evals(o, args, d);
            assert forall|i: int| 0 <= i < ps.len() && !(scoped(op) && i == 1) implies (
            #[trigger] ps[i]) == Some(fs[i]) by {
                evaluation_agrees(o, args[i], d);
            }
            if scoped(op) && args.len() >= 2 {
                let items = items_through(op, fs[0]);
                if op == Operator::Reduce {
                    steps_agree(o, args, items, arg(fs, 2));
                } else {
                    items_agree(o, args, items);
                }
            }
            operator_agrees(o, op, ps, fs, d, partial_body_of(o, args), body_of(o, args));
        },
    }
}

/// The body agrees on items that lack no variable it reads.
proof fn items_agree(o: Oracle, args: Seq<Expr>, items: Seq<Json>)
    requires
        args.len() >= 2,
        present_in_items(o, args, items),
    ensures
        agree_on(items, partial_body_of(o, args), body_of(o, args)),
    decreases args, 1int, 0nat,
{
    assert forall|i: int| 0 <= i < items.len() implies partial_body_of(o, args)(
        #[trigger] items[i],
    ) == Some(body_of(o, args)(items[i])) by {
        evaluation_agrees(o, args[1], items[i]);
    }
}

/// The body agrees at each step that lacks no variable it reads.
proof fn steps_agree(o: Oracle, args: Seq<Expr>, items: Seq<Json>, first: Json)
    requires
        args.len() >= 2,
        present_in_steps(o, args, items, first),
    ensures
        agree_in_steps(items, partial_body_of(o, args), body_of(o, args), first),
    decreases args, 2int, items.len(),
{
    if items.len() > 0 {
        steps_agree(o, args, items.drop_last(), first);
        let step = context(items.last(), gathered(items.drop_last(), body_of(o, args), first));
        evaluation_agrees(o, args[1], step);
    }
}

/// Agreement: where the data lacks no variable that the rule reads,
/// partial evaluation resolves, and to the value that evaluation gives.
/// A document that holds no rule gives the same message either way.
pub proof fn agreement(o: Oracle, rule: Json, data: Json)
    requires
        parse(rule) matches Ok(e) ==> all_present(o, e, data),
    ensures
        partly_applied(o, rule, data) == (match applied(o, rule, data) {
            Ok(v) => Ok::<Option<Json>, Seq<char>>(Some(v)),
            Err(msg) => Err(msg),
        }),
{
    match parse(rule) {
        Ok(e) => {
            evaluation_agrees(o, e, data);
        },
        Err(_) => {},
    }
}

} // verus!

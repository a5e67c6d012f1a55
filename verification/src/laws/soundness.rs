//! Soundness: a partial result is the result on every completion of the
//! data.

use super::agreement::{agree_on, kept_agrees};
use super::shape::{
    boolean, completes, deciding, depends_on, first_known, items_through, of_truth, ranged,
    rushed_range, scoped, steady, steady_in_items, steady_in_steps, steady_on_one, taken,
    unrushed,
};
use crate::expression::{
    body_of, eval, evals, parse, partial_body_of, partial_eval, partial_evals, Expr,
};
use crate::kernel::Oracle;
use crate::logic::truthy;
use crate::operators::reduce::{context, gathered, partly_gathered};
use crate::operators::{
    all_known, and, arg, decided, if_else, known, or, partial_of, plain, plain_partial, reads,
    unclear, value_of, Operator,
};
use crate::value::Json;
use crate::{applied, partly_applied};
use vstd::prelude::*;

verus! {

/// Whether each partial result that the operator depends on, and that
/// is a value, is the value at its position.
pub open spec fn refines(
    o: Oracle,
    op: Operator,
    ps: Seq<Option<Json>>,
    fs: Seq<Json>,
    d: Json,
) -> bool {
    &&& ps.len() == fs.len()
    &&& forall|i: int|
        0 <= i < ps.len() && depends_on(o, op, ps, d, i) ==> ((#[trigger] ps[i]) matches Some(v)
            ==> fs[i] == v)
}

/// Whether the partial body is known to count as `truth` on one of the
/// items, with the value that the body gives on it.
pub open spec fn witnessed(
    items: Seq<Json>,
    partial_body: spec_fn(Json) -> Option<Json>,
    body: spec_fn(Json) -> Json,
    truth: bool,
) -> bool {
    exists|i: int|
        0 <= i < items.len() && (partial_body(#[trigger] items[i]) matches Some(v) && truthy(v)
            == truth && body(items[i]) == v)
}

/// Whether every value that the partial body gives on one of the items
/// is the value that the body gives on it.
pub open spec fn refines_on(
    items: Seq<Json>,
    partial_body: spec_fn(Json) -> Option<Json>,
    body: spec_fn(Json) -> Json,
) -> bool {
    forall|i: int|
        0 <= i < items.len() ==> (partial_body(#[trigger] items[i]) matches Some(v) ==> body(
            items[i],
        ) == v)
}

/// Whether every value that the partial body gives at a step of a
/// `reduce` is the value that the body gives there, as far as the steps
/// before it have values.
pub open spec fn refines_in_steps(
    items: Seq<Json>,
    partial_body: spec_fn(Json) -> Option<Json>,
    body: spec_fn(Json) -> Json,
    first: Json,
) -> bool
    decreases items.len(),
{
    if items.len() == 0 {
        true
    } else {
        &&& refines_in_steps(items.drop_last(), partial_body, body, first)
        &&& partly_gathered(items.drop_last(), partial_body, first) matches Some(so_far) ==> (
        partial_body(context(items.last(), so_far)) matches Some(v) ==> body(
            context(items.last(), so_far),
        ) == v)
    }
}

/// Whether all values, and all partial results that are values, are
/// `true` or `false`.
pub open spec fn all_truth(ps: Seq<Option<Json>>, fs: Seq<Json>) -> bool {
    &&& forall|i: int| 0 <= i < fs.len() ==> (#[trigger] fs[i]) is Bool
    &&& forall|i: int| 0 <= i < ps.len() ==> ((#[trigger] ps[i]) matches Some(v) ==> v is Bool)
}

/// A plain operator is sound.
proof fn plain_is_sound(o: Oracle, op: Operator, ps: Seq<Option<Json>>, fs: Seq<Json>)
    requires
        ps.len() == fs.len(),
        forall|i: int|
            0 <= i < ps.len() && i < reads(op, ps.len() as int) ==> ((#[trigger] ps[i]) matches Some(
                v,
            ) ==> fs[i] == v),
    ensures
        plain_partial(o, op, ps) matches Some(v) ==> plain(o, op, fs) == v,
{
    let m = reads(op, ps.len() as int);
    if all_known(ps, m) {
        assert(known(ps, m) =~= fs.take(m));
    }
}

/// `if` is sound, from every position on.
proof fn if_is_sound(ps: Seq<Option<Json>>, fs: Seq<Json>, i: int)
    requires
        ps.len() == fs.len(),
        0 <= i,
        forall|k: int|
            0 <= k < ps.len() && taken(ps, i, k) ==> ((#[trigger] ps[k]) matches Some(v) ==> fs[k]
                == v),
    ensures
        if_else::partial_chain(ps, i) matches Some(v) ==> if_else::chain(fs, i) == v,
    decreases ps.len() - i,
{
    if i + 1 < ps.len() {
        assert(taken(ps, i, i));
        match ps[i] {
            Some(c) => {
                if truthy(c) {
                    assert(taken(ps, i, i + 1));
                } else {
                    assert forall|k: int| 0 <= k < ps.len() && taken(ps, i + 2, k) implies ((
                    #[trigger] ps[k]) matches Some(v) ==> fs[k] == v) by {
                        assert(taken(ps, i, k));
                    }
                    if_is_sound(ps, fs, i + 2);
                }
            },
            None => {},
        }
    } else if i < ps.len() {
        assert(taken(ps, i, i));
    }
}

/// Where the partial result of `and` from position `i` on is a value,
/// either an operand from there on is that value and counts as false, or
/// nothing was ambiguous, all operands from there on are values that
/// count as true, and the value is the last of them (or what came
/// before, where there is none).
proof fn and_decides(ps: Seq<Option<Json>>, i: int, seen: bool, last: Option<Json>)
    requires
        0 <= i <= ps.len(),
    ensures
        and::partial_scan(ps, i, seen, last) matches Some(v) ==> {
            ||| exists|j: int|
                i <= j < ps.len() && #[trigger] ps[j] == Some(v) && !truthy(v) && first_known(
                    ps,
                    i,
                    j,
                    false,
                )
            ||| {
                &&& !seen
                &&& forall|j: int|
                    i <= j < ps.len() ==> ((#[trigger] ps[j]) matches Some(w) && truthy(w))
                &&& if i < ps.len() {
                    ps[ps.len() - 1] == Some(v)
                } else {
                    v == (match last {
                        Some(w) => w,
                        None => Json::Null,
                    })
                }
            }
        },
    decreases ps.len() - i,
{
    if i < ps.len() {
        match ps[i] {
            None => {
                and_decides(ps, i + 1, true, last);
                if let Some(v) = and::partial_scan(ps, i, seen, last) {
                    let j = choose|j: int|
                        i + 1 <= j < ps.len() && #[trigger] ps[j] == Some(v) && !truthy(v)
                            && first_known(ps, i + 1, j, false);
                    assert(first_known(ps, i, j, false));
                }
            },
            Some(w) => {
                if truthy(w) {
                    and_decides(ps, i + 1, seen, Some(w));
                    if let Some(v) = and::partial_scan(ps, i, seen, last) {
                        if exists|j: int|
                            i + 1 <= j < ps.len() && #[trigger] ps[j] == Some(v) && !truthy(v)
                                && first_known(ps, i + 1, j, false) {
                            let j = choose|j: int|
                                i + 1 <= j < ps.len() && #[trigger] ps[j] == Some(v) && !truthy(v)
                                    && first_known(ps, i + 1, j, false);
                            assert(first_known(ps, i, j, false));
                        }
                    }
                } else {
                    assert(first_known(ps, i, i, false));
                }
            },
        }
    }
}

/// As `and_decides`, for `or`.
proof fn or_decides(ps: Seq<Option<Json>>, i: int, seen: bool, last: Option<Json>)
    requires
        0 <= i <= ps.len(),
    ensures
        or::partial_scan(ps, i, seen, last) matches Some(v) ==> {
            ||| exists|j: int|
                i <= j < ps.len() && #[trigger] ps[j] == Some(v) && truthy(v) && first_known(
                    ps,
                    i,
                    j,
                    true,
                )
            ||| {
                &&& !seen
                &&& forall|j: int|
                    i <= j < ps.len() ==> ((#[trigger] ps[j]) matches Some(w) && !truthy(w))
                &&& if i < ps.len() {
                    ps[ps.len() - 1] == Some(v)
                } else {
                    v == (match last {
                        Some(w) => w,
                        None => Json::Null,
                    })
                }
            }
        },
    decreases ps.len() - i,
{
    if i < ps.len() {
        match ps[i] {
            None => {
                or_decides(ps, i + 1, true, last);
                if let Some(v) = or::partial_scan(ps, i, seen, last) {
                    let j = choose|j: int|
                        i + 1 <= j < ps.len() && #[trigger] ps[j] == Some(v) && truthy(v)
                            && first_known(ps, i + 1, j, true);
                    assert(first_known(ps, i, j, true));
                }
            },
            Some(w) => {
                if !truthy(w) {
                    or_decides(ps, i + 1, seen, Some(w));
                    if let Some(v) = or::partial_scan(ps, i, seen, last) {
                        if exists|j: int|
                            i + 1 <= j < ps.len() && #[trigger] ps[j] == Some(v) && truthy(v)
                                && first_known(ps, i + 1, j, true) {
                            let j = choose|j: int|
                                i + 1 <= j < ps.len() && #[trigger] ps[j] == Some(v) && truthy(v)
                                    && first_known(ps, i + 1, j, true);
                            assert(first_known(ps, i, j, true));
                        }
                    }
                } else {
                    assert(first_known(ps, i, i, true));
                }
            },
        }
    }
}

/// `and` is sound where it has one operand, all operands are `true` or
/// `false`, or no ambiguous operand comes before one that is known to
/// count as false.
proof fn and_is_sound(ps: Seq<Option<Json>>, fs: Seq<Json>)
    requires
        ps.len() == fs.len(),
        forall|i: int|
            0 <= i < ps.len() && first_known(ps, 0, i, false) ==> ((#[trigger] ps[i]) matches Some(v)
                ==> fs[i] == v),
        ps.len() >= 2 ==> all_truth(ps, fs) || unrushed(ps, false),
    ensures
        and::partial(ps) matches Some(v) ==> and::value(fs) == v,
{
    and_decides(ps, 0, false, None);
    if ps.len() > 0 {
        and::picks(fs, 0);
        if let Some(v) = and::partial(ps) {
            if exists|j: int|
                0 <= j < ps.len() && #[trigger] ps[j] == Some(v) && !truthy(v) && first_known(
                    ps,
                    0,
                    j,
                    false,
                ) {
                let j = choose|j: int|
                    0 <= j < ps.len() && #[trigger] ps[j] == Some(v) && !truthy(v) && first_known(
                        ps,
                        0,
                        j,
                        false,
                    );
                assert(!truthy(fs[j]));
                if ps.len() >= 2 && all_truth(ps, fs) {
                    let k = choose|k: int| 0 <= k < fs.len() && and::scan(fs, 0) == #[trigger] fs[k];
                    assert(and::scan(fs, 0) == v);
                } else {
                    assert forall|m: int| 0 <= m < j implies truthy(#[trigger] fs[m]) by {
                        assert(ps[m] is Some);
                        assert(first_known(ps, 0, m, false));
                    }
                    and::stops_at(fs, 0, j);
                }
            } else {
                assert forall|j: int| 0 <= j < fs.len() implies truthy(#[trigger] fs[j]) by {
                    assert(ps[j] is Some);
                    assert(first_known(ps, 0, j, false));
                }
            }
        }
    }
}

/// `or` is sound where it has one operand, all operands are `true` or
/// `false`, or no ambiguous operand comes before one that is known to
/// count as true.
proof fn or_is_sound(ps: Seq<Option<Json>>, fs: Seq<Json>)
    requires
        ps.len() == fs.len(),
        forall|i: int|
            0 <= i < ps.len() && first_known(ps, 0, i, true) ==> ((#[trigger] ps[i]) matches Some(v)
                ==> fs[i] == v),
        ps.len() >= 2 ==> all_truth(ps, fs) || unrushed(ps, true),
    ensures
        or::partial(ps) matches Some(v) ==> or::value(fs) == v,
{
    or_decides(ps, 0, false, None);
    if ps.len() > 0 {
        or::picks(fs, 0);
        if let Some(v) = or::partial(ps) {
            if exists|j: int|
                0 <= j < ps.len() && #[trigger] ps[j] == Some(v) && truthy(v) && first_known(
                    ps,
                    0,
                    j,
                    true,
                ) {
                let j = choose|j: int|
                    0 <= j < ps.len() && #[trigger] ps[j] == Some(v) && truthy(v) && first_known(
                        ps,
                        0,
                        j,
                        true,
                    );
                assert(truthy(fs[j]));
                if ps.len() >= 2 && all_truth(ps, fs) {
                    let k = choose|k: int| 0 <= k < fs.len() && or::scan(fs, 0) == #[trigger] fs[k];
                    assert(or::scan(fs, 0) == v);
                } else {
                    assert forall|m: int| 0 <= m < j implies !truthy(#[trigger] fs[m]) by {
                        assert(ps[m] is Some);
                        assert(first_known(ps, 0, m, true));
                    }
                    or::stops_at(fs, 0, j);
                }
            } else {
                assert forall|j: int| 0 <= j < fs.len() implies !truthy(#[trigger] fs[j]) by {
                    assert(ps[j] is Some);
                    assert(first_known(ps, 0, j, true));
                }
            }
        }
    }
}

/// Where every step that is gathered partially has a value, it is what
/// is gathered.
proof fn gathered_is_sound(
    items: Seq<Json>,
    partial_body: spec_fn(Json) -> Option<Json>,
    body: spec_fn(Json) -> Json,
    first: Json,
)
    requires
        refines_in_steps(items, partial_body, body, first),
    ensures
        partly_gathered(items, partial_body, first) matches Some(v) ==> gathered(items, body, first)
            == v,
    decreases items.len(),
{
    if items.len() > 0 {
        gathered_is_sound(items.drop_last(), partial_body, body, first);
    }
}

/// Whether the body is sound where the operator `op` depends on it: on
/// an item that decides where there is one, else on all items; for
/// `reduce`, at all steps.
pub open spec fn body_refines(
    op: Operator,
    items: Seq<Json>,
    partial_body: spec_fn(Json) -> Option<Json>,
    body: spec_fn(Json) -> Json,
    first: Json,
) -> bool {
    match op {
        Operator::Reduce => refines_in_steps(items, partial_body, body, first),
        Operator::All | Operator::SomeOf | Operator::NoneOf => if decided(
            items,
            partial_body,
            deciding(op),
        ) {
            witnessed(items, partial_body, body, deciding(op))
        } else {
            refines_on(items, partial_body, body)
        },
        _ => refines_on(items, partial_body, body),
    }
}

/// Every operator is sound: where the partial results that it depends
/// on, and that are values, are the values of its arguments on the later
/// data, and likewise for the body, a partial result of the operator
/// that is a value is its value on the later data. Three steps are left
/// out: a `var` that takes its default on data that grows, an `and` or
/// `or` that is decided behind an ambiguous operand by operands that are
/// not all `true` or `false`, and a range form that is `false` for its
/// bounds alone.
pub proof fn operator_is_sound(
    o: Oracle,
    op: Operator,
    ps: Seq<Option<Json>>,
    fs: Seq<Json>,
    d: Json,
    later: Json,
    partial_body: spec_fn(Json) -> Option<Json>,
    body: spec_fn(Json) -> Json,
)
    requires
        refines(o, op, ps, fs, d),
        completes(d, later),
        op == Operator::Variable && ps.len() >= 2 && d != later ==> (ps[0] matches Some(name)
            ==> crate::operators::variable::lookup(o, name, d) is Some),
        op == Operator::And && ps.len() >= 2 ==> all_truth(ps, fs) || unrushed(ps, false),
        op == Operator::Or && ps.len() >= 2 ==> all_truth(ps, fs) || unrushed(ps, true),
        ranged(op) && ps.len() >= 3 ==> !rushed_range(o, op, ps),
        scoped(op) && ps.len() >= 2 && ps[0] is Some && (op == Operator::Reduce && ps.len() >= 3
            ==> ps[2] is Some) ==> body_refines(
            op,
            items_through(op, fs[0]),
            partial_body,
            body,
            arg(fs, 2),
        ),
    ensures
        partial_of(o, op, ps, d, partial_body) matches Some(v) ==> value_of(o, op, fs, later, body)
            == v,
{
    match op {
        Operator::Variable => {
            if ps.len() >= 1 && ps[0] is Some {
                let name = ps[0]->0;
                assert(depends_on(o, op, ps, d, 0));
                assert(fs[0] == name);
                match crate::operators::variable::path_of(o, name) {
                    Some(path) => {
                        assert(crate::data::resolve(d, path) is Some ==> crate::data::resolve(
                            later,
                            path,
                        ) == crate::data::resolve(d, path));
                    },
                    None => {},
                }
                if crate::operators::variable::lookup(o, name, d) is None && ps.len() >= 2 {
                    assert(depends_on(o, op, ps, d, 1));
                }
            }
        },
        Operator::If => {
            assert forall|k: int| 0 <= k < ps.len() && taken(ps, 0, k) implies ((
            #[trigger] ps[k]) matches Some(v) ==> fs[k] == v) by {
                assert(depends_on(o, op, ps, d, k));
            }
            if_is_sound(ps, fs, 0);
        },
        Operator::And => {
            assert forall|i: int| 0 <= i < ps.len() && first_known(ps, 0, i, false) implies ((
            #[trigger] ps[i]) matches Some(v) ==> fs[i] == v) by {
                assert(depends_on(o, op, ps, d, i));
            }
            and_is_sound(ps, fs);
        },
        Operator::Or => {
            assert forall|i: int| 0 <= i < ps.len() && first_known(ps, 0, i, true) implies ((
            #[trigger] ps[i]) matches Some(v) ==> fs[i] == v) by {
                assert(depends_on(o, op, ps, d, i));
            }
            or_is_sound(ps, fs);
        },
        Operator::All | Operator::SomeOf | Operator::NoneOf => {
            if ps.len() >= 2 && ps[0] is Some {
                assert(depends_on(o, op, ps, d, 0));
                let items = items_through(op, fs[0]);
                if decided(items, partial_body, deciding(op)) {
                    let i = choose|i: int|
                        0 <= i < items.len() && (partial_body(#[trigger] items[i]) matches Some(v)
                            && truthy(v) == deciding(op) && body(items[i]) == v);
                    assert(truthy(body(items[i])) == deciding(op));
                } else if !unclear(items, partial_body) {
                    assert forall|i: int| 0 <= i < items.len() implies partial_body(
                        #[trigger] items[i],
                    ) == Some(body(items[i])) by {
                        assert(partial_body(items[i]) is Some);
                    }
                    if exists|i: int| 0 <= i < items.len() && truthy(body(#[trigger] items[i]))
                        == deciding(op) {
                        let i = choose|i: int|
                            0 <= i < items.len() && truthy(body(#[trigger] items[i])) == deciding(
                                op,
                            );
                        assert(partial_body(items[i]) matches Some(v) && truthy(v) == deciding(op));
                    }
                }
            }
        },
        Operator::Filter | Operator::MapEach => {
            if ps.len() >= 2 && ps[0] is Some {
                assert(depends_on(o, op, ps, d, 0));
                let items = items_through(op, fs[0]);
                if !unclear(items, partial_body) {
                    assert forall|i: int| 0 <= i < items.len() implies partial_body(
                        #[trigger] items[i],
                    ) == Some(body(items[i])) by {
                        assert(partial_body(items[i]) is Some);
                    }
                    assert(agree_on(items, partial_body, body));
                    kept_agrees(items, partial_body, body);
                    assert(Seq::new(
                        items.len(),
                        |i: int| crate::operators::map::settled(partial_body(items[i])),
                    ) =~= Seq::new(items.len(), |i: int| body(items[i])));
                }
            }
        },
        Operator::Reduce => {
            if ps.len() >= 2 && ps[0] is Some && (ps.len() >= 3 ==> ps[2] is Some) {
                assert(depends_on(o, op, ps, d, 0));
                if ps.len() >= 3 {
                    assert(depends_on(o, op, ps, d, 2));
                }
                let items = items_through(op, fs[0]);
                gathered_is_sound(items, partial_body, body, arg(fs, 2));
            }
        },
        _ => {
            assert forall|i: int|
                0 <= i < ps.len() && i < reads(op, ps.len() as int) implies ((
                #[trigger] ps[i]) matches Some(v) ==> fs[i] == v) by {
                assert(depends_on(o, op, ps, d, i));
            }
            if ranged(op) && ps.len() >= 3 {
                assert(fs.take(3) =~= seq![fs[0], fs[1], fs[2]]);
            } else {
                plain_is_sound(o, op, ps, fs);
            }
        },
    }
}

/// `and` and `or` of one or more operands that are all `true` or `false`
/// give `true` or `false`.
proof fn truth_of_operands(ps: Seq<Option<Json>>, fs: Seq<Json>)
    requires
        all_truth(ps, fs),
        ps.len() == fs.len(),
        ps.len() >= 1,
    ensures
        and::value(fs) is Bool,
        or::value(fs) is Bool,
        and::partial(ps) matches Some(v) ==> v is Bool,
        or::partial(ps) matches Some(v) ==> v is Bool,
{
    and::picks(fs, 0);
    and_decides(ps, 0, false, None);
    or::picks(fs, 0);
    or_decides(ps, 0, false, None);
}

/// A boolean rule gives `true` or `false`, in evaluation and in partial
/// evaluation.
pub proof fn boolean_gives_truth(o: Oracle, e: Expr, d: Json)
    requires
        boolean(e),
    ensures
        eval(o, e, d) is Bool,
        partial_eval(o, e, d) matches Some(v) ==> v is Bool,
    decreases e,
{
    match e {
        Expr::Constant(_) => {},
        Expr::Computed(op, args) => {
            let ps = partial_evals(o, args, d);
            let fs = evals(o, args, d);
            let body = body_of(o, args);
            let partial_body = partial_body_of(o, args);
            assert(eval(o, e, d) == value_of(o, op, fs, d, body));
            assert(partial_eval(o, e, d) == partial_of(o, op, ps, d, partial_body));
            if of_truth(op) {
                truth_operator_gives_truth(o, op, ps, fs, d, partial_body, body);
            } else {
                assert forall|i: int| 0 <= i < args.len() implies (#[trigger] fs[i]) is Bool by {
                    boolean_gives_truth(o, args[i], d);
                }
                assert forall|i: int| 0 <= i < args.len() implies ((#[trigger] ps[i]) matches Some(
                    v,
                ) ==> v is Bool) by {
                    boolean_gives_truth(o, args[i], d);
                }
                truth_of_operands(ps, fs);
                if op == Operator::And {
                    assert(value_of(o, op, fs, d, body) == and::value(fs));
                    assert(partial_of(o, op, ps, d, partial_body) == and::partial(ps));
                } else {
                    assert(value_of(o, op, fs, d, body) == or::value(fs));
                    assert(partial_of(o, op, ps, d, partial_body) == or::partial(ps));
                }
            }
        },
    }
}

/// An operator that always gives `true` or `false` does so, in
/// evaluation and in partial evaluation.
proof fn truth_operator_gives_truth(
    o: Oracle,
    op: Operator,
    ps: Seq<Option<Json>>,
    fs: Seq<Json>,
    d: Json,
    partial_body: spec_fn(Json) -> Option<Json>,
    body: spec_fn(Json) -> Json,
)
    requires
        of_truth(op),
    ensures
        value_of(o, op, fs, d, body) is Bool,
        partial_of(o, op, ps, d, partial_body) matches Some(v) ==> v is Bool,
{
}

/// Soundness for rules: where the partial evaluation of the rule `e` on
/// the data `d` is steady and `later` completes `d`, a partial result of
/// `e` on `d` that is a value is the value of `e` on `later`. For data
/// that is `fixed`, `later` is `d` itself.
pub proof fn partial_result_is_final(o: Oracle, e: Expr, d: Json, later: Json, fixed: bool)
    requires
        steady(o, e, d, fixed),
        completes(d, later),
        fixed ==> d == later,
    ensures
        partial_eval(o, e, d) matches Some(v) ==> eval(o, e, later) == v,
    decreases e, 0int, 0nat,
{
    match e {
        Expr::Constant(_) => {},
        Expr::Computed(op, args) => {
            let ps = partial_evals(o, args, d);
            let fs = evals(o, args, later);
            let partial_body = partial_body_of(o, args);
            let body = body_of(o, args);
            if partial_of(o, op, ps, d, partial_body) is Some {
                operands_are_sound(o, op, args, d, later, fixed);
                if scoped(op) && args.len() >= 2 && ps[0] is Some && (op == Operator::Reduce
                    && args.len() >= 3 ==> ps[2] is Some) {
                    assert(fs[0] == ps[0]->0 && (args.len() >= 3 && op == Operator::Reduce ==> Some(
                        fs[2],
                    ) == ps[2])) by {
                                        }
                    body_is_sound(
                        o,
                        op,
                        args,
                        items_through(op, fs[0]),
                        if args.len() >= 3 {
                            ps[2]
                        } else {
                            Some(Json::Null)
                        },
                    );
                    assert(body_refines(
                        op,
                        items_through(op, fs[0]),
                        partial_body,
                        body,
                        arg(fs, 2),
                    ));
                }
                if (op == Operator::And || op == Operator::Or) && args.len() >= 2 && (forall|
                    i: int,
                | 0 <= i < args.len() ==> boolean(#[trigger] args[i])) {
                    operands_give_truth(o, args, d, later);
                }
                operator_is_sound(o, op, ps, fs, d, later, partial_body, body);
            }
        },
    }
}

/// The operands that the operator depends on are sound where their
/// partial evaluation is steady.
proof fn operands_are_sound(
    o: Oracle,
    op: Operator,
    args: Seq<Expr>,
    d: Json,
    later: Json,
    fixed: bool,
)
    requires
        forall|i: int|
            0 <= i < args.len() && depends_on(o, op, partial_evals(o, args, d), d, i) ==> steady(
                o,
                #[trigger] args[i],
                d,
                fixed,
            ),
        completes(d, later),
        fixed ==> d == later,
    ensures
        refines(o, op, partial_evals(o, args, d), evals(o, args, later), d),
    decreases args, 4int, 0nat,
{
    let ps = partial_evals(o, args, d);
    let fs = evals(o, args, later);
    assert forall|i: int| 0 <= i < ps.len() && depends_on(o, op, ps, d, i) implies ((
    #[trigger] ps[i]) matches Some(v) ==> fs[i] == v) by {
        assert(steady(o, args[i], d, fixed));
        partial_result_is_final(o, args[i], d, later, fixed);
    }
}

/// The operands of boolean rules are `true` or `false`.
proof fn operands_give_truth(o: Oracle, args: Seq<Expr>, d: Json, later: Json)
    requires
        forall|i: int| 0 <= i < args.len() ==> boolean(#[trigger] args[i]),
    ensures
        all_truth(partial_evals(o, args, d), evals(o, args, later)),
{
    let ps = partial_evals(o, args, d);
    let fs = evals(o, args, later);
    assert forall|i: int| 0 <= i < fs.len() implies (#[trigger] fs[i]) is Bool by {
        boolean_gives_truth(o, args[i], later);
    }
    assert forall|i: int| 0 <= i < ps.len() implies ((#[trigger] ps[i]) matches Some(v)
        ==> v is Bool) by {
        boolean_gives_truth(o, args[i], d);
    }
}

/// The body is sound where the operator depends on it and its partial
/// evaluation is steady.
proof fn body_is_sound(
    o: Oracle,
    op: Operator,
    args: Seq<Expr>,
    items: Seq<Json>,
    first: Option<Json>,
)
    requires
        scoped(op),
        args.len() >= 2,
        op == Operator::Reduce ==> first is Some,
        super::shape::steady_body(o, op, args, items, first),
    ensures
        forall|start: Json|
            (op == Operator::Reduce ==> first == Some(start)) ==> #[trigger] body_refines(
                op,
                items,
                partial_body_of(o, args),
                body_of(o, args),
                start,
            ),
    decreases args, 3int, 0nat,
{
    if op == Operator::Reduce {
        steps_are_sound(o, args, items, first->0);
    } else if op == Operator::Filter || op == Operator::MapEach {
        items_are_sound(o, args, items);
    } else if decided(items, partial_body_of(o, args), deciding(op)) {
        one_is_sound(o, args, items, deciding(op));
    } else {
        items_are_sound(o, args, items);
    }
}

/// The body is sound on an item that decides and on which its partial
/// evaluation is steady.
proof fn one_is_sound(o: Oracle, args: Seq<Expr>, items: Seq<Json>, truth: bool)
    requires
        steady_on_one(o, args, items, truth),
    ensures
        witnessed(items, partial_body_of(o, args), body_of(o, args), truth),
    decreases args, 1int, 0nat,
{
    let i = choose|i: int|
        0 <= i < items.len() && steady(o, args[1], #[trigger] items[i], true) && (partial_eval(
            o,
            args[1],
            items[i],
        ) matches Some(v) && truthy(v) == truth);
    partial_result_is_final(o, args[1], items[i], items[i], true);
    assert(partial_body_of(o, args)(items[i]) matches Some(v) && truthy(v) == truth && body_of(
        o,
        args,
    )(items[i]) == v);
}

/// The body is sound on the items on which its partial evaluation is
/// steady.
proof fn items_are_sound(o: Oracle, args: Seq<Expr>, items: Seq<Json>)
    requires
        args.len() >= 2,
        steady_in_items(o, args, items),
    ensures
        refines_on(items, partial_body_of(o, args), body_of(o, args)),
    decreases args, 1int, 0nat,
{
    assert forall|i: int| 0 <= i < items.len() implies (partial_body_of(o, args)(
        #[trigger] items[i],
    ) matches Some(v) ==> body_of(o, args)(items[i]) == v) by {
        partial_result_is_final(o, args[1], items[i], items[i], true);
    }
}

/// The body is sound at the steps at which its partial evaluation is
/// steady.
proof fn steps_are_sound(o: Oracle, args: Seq<Expr>, items: Seq<Json>, first: Json)
    requires
        args.len() >= 2,
        steady_in_steps(o, args, items, first),
    ensures
        refines_in_steps(items, partial_body_of(o, args), body_of(o, args), first),
    decreases args, 2int, items.len(),
{
    if items.len() > 0 {
        steps_are_sound(o, args, items.drop_last(), first);
        match partly_gathered(items.drop_last(), partial_body_of(o, args), first) {
            Some(so_far) => {
                let step = context(items.last(), so_far);
                partial_result_is_final(o, args[1], step, step, true);
            },
            None => {},
        }
    }
}

/// Soundness: where `later` completes the data and the partial
/// evaluation of the rule is steady, a partial evaluation that resolves
/// gives the value that evaluation gives on `later`.
pub proof fn soundness(o: Oracle, rule: Json, data: Json, later: Json)
    requires
        completes(data, later),
        parse(rule) matches Ok(e) ==> steady(o, e, data, false),
    ensures
        partly_applied(o, rule, data) matches Ok(Some(v)) ==> applied(o, rule, later) == Ok::<
            Json,
            Seq<char>,
        >(v),
{
    match parse(rule) {
        Ok(e) => {
            partial_result_is_final(o, e, data, later, false);
        },
        Err(_) => {},
    }
}

} // verus!

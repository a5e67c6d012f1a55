use jsonlogic::kernel::{ArithOp, Query, Reply};
use jsonlogic::value::{Number, Value};
use jsonlogic::PartialApplyOutcome::{Ambiguous, Resolved};
use jsonlogic::{apply, partial_apply, PartialApplyOutcome};

fn kernel(q: Query) -> Reply {
    match q {
        Query::Double(n) => {
            let x: f64 = match n {
                Number::PosInt(u) => u as f64,
                Number::NegInt(i) => i as f64,
                Number::Float(b) => f64::from_bits(b),
            };
            Reply::Bits(x.to_bits())
        }
        Query::Arith(op, a, b) => {
            let x = f64::from_bits(a);
            let y = f64::from_bits(b);
            let r = match op {
                ArithOp::Add => x + y,
                ArithOp::Sub => x - y,
                ArithOp::Mul => x * y,
                ArithOp::Div => x / y,
                ArithOp::Rem => x % y,
            };
            Reply::Bits(r.to_bits())
        }
        Query::Parse(s) => match s.parse::<f64>() {
            Ok(x) => Reply::Bits(x.to_bits()),
            Err(_) => Reply::Undefined,
        },
        Query::Show(b) => match serde_json::Number::from_f64(f64::from_bits(b)) {
            Some(n) => Reply::Text(n.to_string()),
            None => Reply::Undefined,
        },
    }
}

fn whole(n: i64) -> Value {
    if n < 0 {
        Value::Number(Number::NegInt(n))
    } else {
        Value::Number(Number::PosInt(n as u64))
    }
}

fn float(x: f64) -> Value {
    Value::Number(Number::Float(x.to_bits()))
}

fn text(s: &str) -> Value {
    Value::String(s.to_string())
}

fn list(items: Vec<Value>) -> Value {
    Value::Array(items)
}

fn object(members: Vec<(&str, Value)>) -> Value {
    Value::Object(members.into_iter().map(|(k, v)| (k.to_string(), v)).collect())
}

fn rule(op: &str, args: Vec<Value>) -> Value {
    object(vec![(op, list(args))])
}

fn var(name: &str) -> Value {
    object(vec![("var", text(name))])
}

fn yes() -> Value {
    Value::Bool(true)
}

fn no() -> Value {
    Value::Bool(false)
}

fn partly(logic: &Value, data: &Value) -> PartialApplyOutcome {
    partial_apply(logic, data, &kernel).unwrap()
}

fn nothing() -> Value {
    object(vec![])
}

#[test]
fn plain_operators_wait_for_every_operand_they_read() {
    let missing = var("missing");
    for op in ["==", "===", "!=", "!==", "<", ">", "+", "-", "*", "/", "%", "in", "cat", "merge",
        "jp_ver_eq", "jp_ver_gt", "jp_ver_lt", "jp_ver_ge", "jp_ver_le", "match", "<=", ">="]
    {
        assert_eq!(partly(&rule(op, vec![missing.clone(), whole(1)]), &nothing()), Ambiguous, "{}", op);
        assert_eq!(partly(&rule(op, vec![whole(1), missing.clone()]), &nothing()), Ambiguous, "{}", op);
    }
    for op in ["!", "!!", "log"] {
        assert_eq!(partly(&rule(op, vec![missing.clone()]), &nothing()), Ambiguous, "{}", op);
    }
    // An operand that is not read does not count.
    assert_eq!(partly(&rule("==", vec![whole(1), whole(1), missing.clone()]), &nothing()), Resolved(yes()));
    assert_eq!(partly(&rule("!", vec![whole(1), missing.clone()]), &nothing()), Resolved(no()));
    assert_eq!(partly(&rule("/", vec![whole(1), whole(2), missing.clone()]), &nothing()), Resolved(float(0.5)));
    assert_eq!(partly(&rule("-", vec![whole(1), whole(2), missing.clone()]), &nothing()), Resolved(float(-1.0)));
    assert_eq!(partly(&rule("+", vec![whole(1), whole(2), missing.clone()]), &nothing()), Ambiguous);
}

#[test]
fn too_few_arguments_are_never_ambiguous() {
    let missing = var("missing");
    for (op, default) in [
        ("<", no()),
        (">", no()),
        ("<=", no()),
        (">=", no()),
        ("/", Value::Null),
        ("%", Value::Null),
        ("in", no()),
        ("jp_ver_eq", no()),
        ("jp_ver_gt", no()),
        ("jp_ver_lt", no()),
        ("jp_ver_ge", no()),
        ("jp_ver_le", no()),
        ("match", no()),
    ] {
        assert_eq!(partly(&rule(op, vec![]), &nothing()), Resolved(default.clone()), "{}", op);
        assert_eq!(
            partly(&rule(op, vec![missing.clone()]), &nothing()),
            Resolved(default.clone()),
            "{}",
            op
        );
        assert_eq!(apply(&rule(op, vec![]), &nothing(), &kernel), Ok(default.clone()), "{}", op);
        assert_eq!(apply(&rule(op, vec![whole(1)]), &nothing(), &kernel), Ok(default), "{}", op);
    }
    assert_eq!(partly(&rule("!", vec![]), &nothing()), Resolved(yes()));
    assert_eq!(partly(&rule("!!", vec![]), &nothing()), Resolved(no()));
    assert_eq!(partly(&rule("log", vec![]), &nothing()), Resolved(Value::Null));
    assert_eq!(partly(&rule("===", vec![]), &nothing()), Resolved(yes()));
    assert_eq!(partly(&rule("!=", vec![]), &nothing()), Resolved(no()));
    assert_eq!(partly(&rule("and", vec![]), &nothing()), Resolved(Value::Null));
    assert_eq!(partly(&rule("or", vec![]), &nothing()), Resolved(Value::Null));
    assert_eq!(partly(&rule("if", vec![]), &nothing()), Resolved(Value::Null));
    assert_eq!(partly(&rule("all", vec![]), &nothing()), Resolved(no()));
    assert_eq!(partly(&rule("some", vec![]), &nothing()), Resolved(no()));
    assert_eq!(partly(&rule("none", vec![]), &nothing()), Resolved(yes()));
    assert_eq!(partly(&rule("filter", vec![]), &nothing()), Resolved(list(vec![])));
    assert_eq!(partly(&rule("map", vec![]), &nothing()), Resolved(list(vec![])));
    assert_eq!(partly(&rule("reduce", vec![]), &nothing()), Resolved(Value::Null));
    assert_eq!(partly(&rule("all", vec![missing.clone()]), &nothing()), Resolved(no()));
    assert_eq!(partly(&rule("some", vec![missing.clone()]), &nothing()), Resolved(no()));
    assert_eq!(partly(&rule("none", vec![missing.clone()]), &nothing()), Resolved(yes()));
    assert_eq!(partly(&rule("filter", vec![missing.clone()]), &nothing()), Resolved(list(vec![])));
    assert_eq!(partly(&rule("map", vec![missing.clone()]), &nothing()), Resolved(list(vec![])));
    assert_eq!(partly(&rule("reduce", vec![missing.clone()]), &nothing()), Resolved(Value::Null));
    assert_eq!(
        apply(&rule("map", vec![list(vec![whole(1), whole(2)])]), &nothing(), &kernel),
        Ok(list(vec![]))
    );
    assert_eq!(
        apply(&rule("filter", vec![list(vec![whole(1), whole(2)])]), &nothing(), &kernel),
        Ok(list(vec![]))
    );
}

#[test]
fn and_is_decided_by_a_known_false_operand() {
    let missing = var("missing");
    assert_eq!(partly(&rule("and", vec![missing.clone(), no()]), &nothing()), Resolved(no()));
    assert_eq!(partly(&rule("and", vec![no(), missing.clone()]), &nothing()), Resolved(no()));
    assert_eq!(partly(&rule("and", vec![yes(), missing.clone()]), &nothing()), Ambiguous);
    assert_eq!(partly(&rule("and", vec![missing.clone(), yes()]), &nothing()), Ambiguous);
    assert_eq!(partly(&rule("and", vec![yes(), whole(3)]), &nothing()), Resolved(whole(3)));
    assert_eq!(
        partly(&rule("and", vec![missing.clone(), whole(0), no()]), &nothing()),
        Resolved(whole(0))
    );
}

#[test]
fn or_is_decided_by_a_known_true_operand() {
    let missing = var("missing");
    assert_eq!(partly(&rule("or", vec![missing.clone(), yes()]), &nothing()), Resolved(yes()));
    assert_eq!(partly(&rule("or", vec![yes(), missing.clone()]), &nothing()), Resolved(yes()));
    assert_eq!(partly(&rule("or", vec![no(), missing.clone()]), &nothing()), Ambiguous);
    assert_eq!(partly(&rule("or", vec![missing.clone(), no()]), &nothing()), Ambiguous);
    assert_eq!(partly(&rule("or", vec![no(), whole(0)]), &nothing()), Resolved(whole(0)));
    assert_eq!(
        partly(&rule("or", vec![missing.clone(), text("a"), yes()]), &nothing()),
        Resolved(text("a"))
    );
}

#[test]
fn if_waits_for_the_conditions_it_reaches() {
    let missing = var("missing");
    assert_eq!(partly(&rule("if", vec![missing.clone(), whole(1), whole(2)]), &nothing()), Ambiguous);
    assert_eq!(partly(&rule("if", vec![yes(), whole(1), missing.clone()]), &nothing()), Resolved(whole(1)));
    assert_eq!(partly(&rule("if", vec![no(), missing.clone(), whole(2)]), &nothing()), Resolved(whole(2)));
    assert_eq!(partly(&rule("if", vec![yes(), missing.clone(), whole(2)]), &nothing()), Ambiguous);
    assert_eq!(
        partly(&rule("if", vec![no(), whole(1), missing.clone(), whole(2), whole(3)]), &nothing()),
        Ambiguous
    );
    assert_eq!(
        partly(&rule("if", vec![no(), whole(1), yes(), whole(2), missing.clone()]), &nothing()),
        Resolved(whole(2))
    );
}

#[test]
fn a_range_is_false_as_soon_as_two_operands_break_it() {
    let missing = var("missing");
    // All three known.
    assert_eq!(partly(&rule("<=", vec![whole(1), whole(2), whole(3)]), &nothing()), Resolved(yes()));
    assert_eq!(partly(&rule("<=", vec![whole(1), whole(5), whole(3)]), &nothing()), Resolved(no()));
    // One unknown, the other two in order: nothing is settled.
    assert_eq!(partly(&rule("<=", vec![whole(1), missing.clone(), whole(3)]), &nothing()), Ambiguous);
    assert_eq!(partly(&rule("<=", vec![missing.clone(), whole(2), whole(3)]), &nothing()), Ambiguous);
    assert_eq!(partly(&rule("<=", vec![whole(1), whole(2), missing.clone()]), &nothing()), Ambiguous);
    // One unknown, the other two out of order.
    assert_eq!(partly(&rule("<=", vec![whole(5), missing.clone(), whole(3)]), &nothing()), Resolved(no()));
    assert_eq!(partly(&rule("<=", vec![missing.clone(), whole(4), whole(3)]), &nothing()), Resolved(no()));
    assert_eq!(partly(&rule("<=", vec![whole(5), whole(2), missing.clone()]), &nothing()), Resolved(no()));
    // Two unknown.
    assert_eq!(
        partly(&rule("<=", vec![missing.clone(), missing.clone(), whole(3)]), &nothing()),
        Ambiguous
    );
    // Downwards.
    assert_eq!(partly(&rule(">=", vec![whole(3), whole(2), whole(1)]), &nothing()), Resolved(yes()));
    assert_eq!(partly(&rule(">=", vec![whole(3), whole(2), whole(5)]), &nothing()), Resolved(no()));
    assert_eq!(apply(&rule(">=", vec![whole(3), whole(2), whole(5)]), &nothing(), &kernel), Ok(no()));
    assert_eq!(partly(&rule(">=", vec![whole(1), missing.clone(), whole(3)]), &nothing()), Resolved(no()));
    assert_eq!(partly(&rule(">=", vec![whole(3), missing.clone(), whole(1)]), &nothing()), Ambiguous);
    // Versions.
    assert_eq!(
        partly(&rule("jp_ver_le", vec![text("1.0"), text("1.5"), text("2.0")]), &nothing()),
        Resolved(yes())
    );
    assert_eq!(
        partly(&rule("jp_ver_le", vec![text("2.0"), missing.clone(), text("1.0")]), &nothing()),
        Resolved(no())
    );
    assert_eq!(
        partly(&rule("jp_ver_le", vec![text("1.0"), missing.clone(), text("2.0")]), &nothing()),
        Ambiguous
    );
    assert_eq!(
        partly(&rule("jp_ver_le", vec![missing.clone(), text("3.0"), text("2.0")]), &nothing()),
        Resolved(no())
    );
}

#[test]
fn a_counter_example_decides_whatever_else_is_unknown() {
    let data = object(vec![(
        "people",
        list(vec![
            object(vec![("name", text("Alice"))]),
            object(vec![("name", text("Bob")), ("age", whole(25))]),
            object(vec![("name", text("Carol")), ("age", whole(40))]),
        ]),
    )]);
    let adult = rule(">=", vec![var("age"), whole(18)]);
    let old = rule(">=", vec![var("age"), whole(30)]);
    let ancient = rule(">=", vec![var("age"), whole(90)]);
    assert_eq!(partly(&rule("all", vec![var("people"), old.clone()]), &data), Resolved(no()));
    assert_eq!(partly(&rule("all", vec![var("people"), adult.clone()]), &data), Ambiguous);
    assert_eq!(partly(&rule("some", vec![var("people"), old.clone()]), &data), Resolved(yes()));
    assert_eq!(partly(&rule("some", vec![var("people"), ancient.clone()]), &data), Ambiguous);
    assert_eq!(partly(&rule("none", vec![var("people"), old.clone()]), &data), Resolved(no()));
    assert_eq!(partly(&rule("none", vec![var("people"), ancient.clone()]), &data), Ambiguous);
    assert_eq!(partly(&rule("filter", vec![var("people"), old.clone()]), &data), Ambiguous);
    assert_eq!(partly(&rule("map", vec![var("people"), var("age")]), &data), Ambiguous);
    assert_eq!(
        partly(&rule("map", vec![var("people"), var("name")]), &data),
        Resolved(list(vec![text("Alice"), text("Bob"), text("Carol")]))
    );
    assert_eq!(
        partly(
            &rule("reduce", vec![var("people"), rule("cat", vec![var("accumulator"), var("current.name")]), text(">")]),
            &data
        ),
        Resolved(text(">AliceBobCarol"))
    );
    assert_eq!(
        partly(
            &rule("reduce", vec![var("people"), rule("+", vec![var("accumulator"), var("current.age")]), whole(0)]),
            &data
        ),
        Ambiguous
    );
    assert_eq!(
        partly(&rule("reduce", vec![var("people"), var("accumulator"), var("start")]), &data),
        Ambiguous
    );
    // The array itself is unknown.
    for op in ["all", "some", "none", "filter", "map", "reduce"] {
        assert_eq!(partly(&rule(op, vec![var("others"), yes()]), &data), Ambiguous, "{}", op);
    }
    // The first operand is known, and no array.
    let odd = object(vec![("people", whole(3))]);
    assert_eq!(partly(&rule("all", vec![var("people"), yes()]), &odd), Resolved(no()));
    assert_eq!(partly(&rule("some", vec![var("people"), yes()]), &odd), Resolved(no()));
    assert_eq!(partly(&rule("none", vec![var("people"), yes()]), &odd), Resolved(no()));
    assert_eq!(partly(&rule("none", vec![whole(5), yes()]), &nothing()), Resolved(no()));
    assert_eq!(partly(&rule("filter", vec![var("people"), yes()]), &odd), Resolved(list(vec![])));
    assert_eq!(partly(&rule("map", vec![var("people"), yes()]), &odd), Resolved(list(vec![])));
    assert_eq!(partly(&rule("reduce", vec![var("people"), yes(), whole(1)]), &odd), Resolved(whole(1)));
}

#[test]
fn what_partial_evaluation_cannot_promise() {
    // A default stands in for a variable that may still come.
    let with_default = rule("var", vec![text("a"), whole(1)]);
    assert_eq!(partly(&with_default, &nothing()), Resolved(whole(1)));
    assert_eq!(apply(&with_default, &object(vec![("a", whole(2))]), &kernel), Ok(whole(2)));
    // An ambiguous operand may decide with a value of its own.
    let mixed = rule("and", vec![var("a"), whole(0)]);
    assert_eq!(partly(&mixed, &nothing()), Resolved(whole(0)));
    assert_eq!(apply(&mixed, &object(vec![("a", no())]), &kernel), Ok(no()));
    // The orderings are not transitive: 10 <= "5x" and "5x" <= 9 as texts, but not 10 <= 9.
    let range = rule("<=", vec![whole(10), var("a"), whole(9)]);
    assert_eq!(partly(&range, &nothing()), Resolved(no()));
    assert_eq!(apply(&range, &object(vec![("a", text("5x"))]), &kernel), Ok(yes()));
}

#[test]
fn what_does_not_decide_cannot_overturn() {
    // The default is taken behind an operand that has decided already.
    let logic = rule("and", vec![no(), rule("var", vec![text("x"), whole(1)])]);
    assert_eq!(partly(&logic, &nothing()), Resolved(no()));
    for x in [whole(0), whole(2), no(), text("")] {
        assert_eq!(apply(&logic, &object(vec![("x", x)]), &kernel), Ok(no()));
    }
    // The branch that is not taken may hold anything.
    let logic = rule(
        "if",
        vec![
            rule("==", vec![var("a"), whole(1)]),
            text("one"),
            rule("and", vec![var("b"), whole(0)]),
        ],
    );
    let data = object(vec![("a", whole(1))]);
    assert_eq!(partly(&logic, &data), Resolved(text("one")));
    for b in [whole(0), no(), text("x")] {
        assert_eq!(
            apply(&logic, &object(vec![("a", whole(1)), ("b", b)]), &kernel),
            Ok(text("one"))
        );
    }
    // One item that is known to fail decides `all`.
    let logic = rule(
        "all",
        vec![var("items"), rule("and", vec![rule("var", vec![text("ok"), yes()]), var("n")])],
    );
    let data = object(vec![(
        "items",
        list(vec![object(vec![("n", whole(1))]), object(vec![("ok", no()), ("n", whole(2))])]),
    )]);
    assert_eq!(partly(&logic, &data), Resolved(no()));
    assert_eq!(apply(&logic, &data, &kernel), Ok(no()));
}

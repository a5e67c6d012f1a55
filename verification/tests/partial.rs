use jsonlogic::kernel::{ArithOp, Query, Reply};
use jsonlogic::value::{Number, Value};
use jsonlogic::PartialApplyOutcome::{Ambiguous, Resolved};
use jsonlogic::{apply, partial_apply};

fn kernel(q: Query) -> Reply {
    match q {
        Query::Double(n) => {
            let x: f64 = match n {
                Number::PosInt(u) => u as f64,
                Number::NegInt(i) => i as f64,
                Number::Float(b) => f64::from_bits(b),
            };
            Reply::Bits(x.to_bits())
        }
        Query::Arith(op, a, b) => {
            let x = f64::from_bits(a);
            let y = f64::from_bits(b);
            let r = match op {
                ArithOp::Add => x + y,
                ArithOp::Sub => x - y,
                ArithOp::Mul => x * y,
                ArithOp::Div => x / y,
                ArithOp::Rem => x % y,
            };
            Reply::Bits(r.to_bits())
        }
        Query::Parse(s) => match s.parse::<f64>() {
            Ok(x) => Reply::Bits(x.to_bits()),
            Err(_) => Reply::Undefined,
        },
        Query::Show(b) => match serde_json::Number::from_f64(f64::from_bits(b)) {
            Some(n) => Reply::Text(n.to_string()),
            None => Reply::Undefined,
        },
    }
}

fn whole(n: i64) -> Value {
    if n < 0 {
        Value::Number(Number::NegInt(n))
    } else {
        Value::Number(Number::PosInt(n as u64))
    }
}

fn float(x: f64) -> Value {
    Value::Number(Number::Float(x.to_bits()))
}

fn text(s: &str) -> Value {
    Value::String(s.to_string())
}

fn list(items: Vec<Value>) -> Value {
    Value::Array(items)
}

fn object(members: Vec<(&str, Value)>) -> Value {
    Value::Object(members.into_iter().map(|(k, v)| (k.to_string(), v)).collect())
}

fn rule(op: &str, args: Vec<Value>) -> Value {
    object(vec![(op, list(args))])
}

fn var(name: &str) -> Value {
    object(vec![("var", text(name))])
}

#[test]
fn test_1() {
    let logic = rule(
        "and",
        vec![
            rule(">", vec![var("age"), whole(18)]),
            rule("<=", vec![var("age"), whole(65)]),
            rule("==", vec![var("test"), text("test")]),
            rule(
                "or",
                vec![
                    rule("==", vec![var("status"), text("employed")]),
                    rule("==", vec![var("status"), text("student")]),
                ],
            ),
        ],
    );
    assert_eq!(
        partial_apply(&logic, &object(vec![("status", text("test"))]), &kernel),
        Ok(Resolved(Value::Bool(false)))
    );
    assert_eq!(
        partial_apply(&logic, &object(vec![("status", text("test"))]), &kernel),
        apply(&logic, &object(vec![("status", text("test"))]), &kernel).map(|val| Resolved(val)),
    );
    assert_eq!(
        partial_apply(
            &logic,
            &object(vec![("status", text("student")), ("test", text("test"))]),
            &kernel
        ),
        Ok(Ambiguous)
    );
    assert_eq!(
        partial_apply(
            &logic,
            &object(vec![("status", text("student")), ("test", text("test")), ("age", whole(30))]),
            &kernel
        ),
        Ok(Resolved(Value::Bool(true)))
    );
    assert_eq!(
        partial_apply(
            &logic,
            &object(vec![("status", text("student")), ("test", text("test")), ("age", whole(30))]),
            &kernel
        ),
        apply(
            &logic,
            &object(vec![("status", text("student")), ("test", text("test")), ("age", whole(30))]),
            &kernel
        )
        .map(|val| Resolved(val)),
    );
}

#[test]
fn test_2() {
    let logic = rule(
        "if",
        vec![
            rule("==", vec![var("role"), text("admin")]),
            rule(
                "and",
                vec![
                    rule("==", vec![var("accessLevel"), text("full")]),
                    rule("==", vec![var("active"), Value::Bool(true)]),
                ],
            ),
            rule("==", vec![var("accessLevel"), text("limited")]),
        ],
    );
    assert_eq!(
        partial_apply(&logic, &object(vec![("accessLevel", text("limited"))]), &kernel),
        Ok(Ambiguous)
    );
    assert_eq!(
        partial_apply(
            &logic,
            &object(vec![("role", text("user")), ("accessLevel", text("limited"))]),
            &kernel
        ),
        Ok(Resolved(Value::Bool(true)))
    );
    assert_eq!(
        partial_apply(
            &logic,
            &object(vec![("role", text("user")), ("accessLevel", text("limited"))]),
            &kernel
        ),
        apply(
            &logic,
            &object(vec![("role", text("user")), ("accessLevel", text("limited"))]),
            &kernel
        )
        .map(|val| Resolved(val)),
    );
    assert_eq!(
        partial_apply(
            &logic,
            &object(vec![("role", text("admin")), ("test", text("test")), ("age", whole(30))]),
            &kernel
        ),
        Ok(Ambiguous)
    );
}

#[test]
fn test_3() {
    let logic = rule(
        "and",
        vec![
            rule(
                "in",
                vec![
                    var("department"),
                    list(vec![text("HR"), text("Engineering"), text("Marketing")]),
                ],
            ),
            rule(
                "or",
                vec![
                    rule("==", vec![var("status"), text("active")]),
                    rule("<", vec![var("experience"), whole(5)]),
                ],
            ),
        ],
    );
    assert_eq!(
        partial_apply(&logic, &object(vec![("department", text("HR"))]), &kernel),
        Ok(Ambiguous)
    );
    assert_eq!(
        partial_apply(
            &logic,
            &object(vec![("department", text("HR")), ("status", text("active"))]),
            &kernel
        ),
        Ok(Resolved(Value::Bool(true)))
    );
    assert_eq!(
        partial_apply(
            &logic,
            &object(vec![("department", text("HR")), ("status", text("active"))]),
            &kernel
        ),
        apply(
            &logic,
            &object(vec![("department", text("HR")), ("status", text("active"))]),
            &kernel
        )
        .map(|val| Resolved(val)),
    );
    assert_eq!(
        partial_apply(
            &logic,
            &object(vec![("department", text("HR")), ("experience", whole(3))]),
            &kernel
        ),
        Ok(Resolved(Value::Bool(true)))
    );
    assert_eq!(
        partial_apply(
            &logic,
            &object(vec![("department", text("HR")), ("experience", whole(3))]),
            &kernel
        ),
        apply(
            &logic,
            &object(vec![("department", text("HR")), ("experience", whole(3))]),
            &kernel
        )
        .map(|val| Resolved(val)),
    );
    assert_eq!(
        partial_apply(
            &logic,
            &object(vec![("role", text("admin")), ("experience", whole(3))]),
            &kernel
        ),
        Ok(Ambiguous)
    );
}

#[test]
fn test_4() {
    let logic = rule(
        "or",
        vec![
            rule(
                "and",
                vec![
                    rule(">=", vec![var("salary"), whole(50000)]),
                    rule("<=", vec![var("salary"), whole(100000)]),
                ],
            ),
            rule("==", vec![var("position"), text("intern")]),
        ],
    );
    assert_eq!(
        partial_apply(&logic, &object(vec![("salary", whole(75000))]), &kernel),
        Ok(Resolved(Value::Bool(true)))
    );
    assert_eq!(
        partial_apply(&logic, &object(vec![("salary", whole(75000))]), &kernel),
        apply(&logic, &object(vec![("salary", whole(75000))]), &kernel).map(|val| Resolved(val)),
    );
    assert_eq!(
        partial_apply(&logic, &object(vec![("position", text("intern"))]), &kernel),
        Ok(Resolved(Value::Bool(true)))
    );
    assert_eq!(
        partial_apply(&logic, &object(vec![("position", text("intern"))]), &kernel),
        apply(&logic, &object(vec![("position", text("intern"))]), &kernel)
            .map(|val| Resolved(val)),
    );
    assert_eq!(
        partial_apply(&logic, &object(vec![("position", text("admin"))]), &kernel),
        Ok(Ambiguous)
    );
    assert_eq!(
        partial_apply(
            &logic,
            &object(vec![("salary", whole(75000)), ("position", text("admin"))]),
            &kernel
        ),
        Ok(Resolved(Value::Bool(true)))
    );
    assert_eq!(
        partial_apply(
            &logic,
            &object(vec![("salary", whole(75000)), ("position", text("admin"))]),
            &kernel
        ),
        apply(
            &logic,
            &object(vec![("salary", whole(75000)), ("position", text("admin"))]),
            &kernel
        )
        .map(|val| Resolved(val)),
    );
    assert_eq!(
        partial_apply(
            &logic,
            &object(vec![("role", text("admin")), ("age", whole(30))]),
            &kernel
        ),
        Ok(Ambiguous)
    );
}

#[test]
fn test_5() {
    let logic = rule(
        "and",
        vec![
            rule(">", vec![var("temperature"), whole(0)]),
            rule("<=", vec![var("temperature"), whole(100)]),
            rule(
                "if",
                vec![rule(">", vec![var("temperature"), whole(50)]), text("Hot"), text("Cold")],
            ),
        ],
    );
    assert_eq!(
        partial_apply(&logic, &object(vec![("temperature", whole(60))]), &kernel),
        Ok(Resolved(text("Hot")))
    );
    assert_eq!(
        partial_apply(&logic, &object(vec![("temperature", whole(60))]), &kernel),
        apply(&logic, &object(vec![("temperature", whole(60))]), &kernel).map(|val| Resolved(val)),
    );
    assert_eq!(
        partial_apply(&logic, &object(vec![("role", text("user"))]), &kernel),
        Ok(Ambiguous)
    );
    assert_eq!(
        partial_apply(&logic, &object(vec![("temperature", whole(160))]), &kernel),
        Ok(Resolved(Value::Bool(false)))
    );
    assert_eq!(
        partial_apply(&logic, &object(vec![("temperature", whole(160))]), &kernel),
        apply(&logic, &object(vec![("temperature", whole(160))]), &kernel).map(|val| Resolved(val)),
    );
    assert_eq!(
        partial_apply(&logic, &object(vec![("temperature", whole(40))]), &kernel),
        Ok(Resolved(text("Cold")))
    );
    assert_eq!(
        partial_apply(&logic, &object(vec![("temperature", whole(40))]), &kernel),
        apply(&logic, &object(vec![("temperature", whole(40))]), &kernel).map(|val| Resolved(val)),
    );
}

#[test]
fn test_6() {
    let logic = rule(
        "+",
        vec![rule("*", vec![var("x"), whole(2)]), rule("/", vec![var("y"), whole(3)])],
    );
    assert_eq!(partial_apply(&logic, &object(vec![("x", whole(10))]), &kernel), Ok(Ambiguous));
    assert_eq!(partial_apply(&logic, &object(vec![("y", whole(10))]), &kernel), Ok(Ambiguous));
    assert_eq!(
        partial_apply(&logic, &object(vec![("x", whole(10)), ("y", whole(10))]), &kernel),
        Ok(Resolved(float(23.333333333333332)))
    );
    assert_eq!(
        partial_apply(&logic, &object(vec![("x", whole(10)), ("y", whole(10))]), &kernel),
        apply(&logic, &object(vec![("x", whole(10)), ("y", whole(10))]), &kernel)
            .map(|val| Resolved(val)),
    );
}

#[test]
fn test_7() {
    let logic = rule("merge", vec![var("list1"), var("list2")]);
    assert_eq!(
        partial_apply(
            &logic,
            &object(vec![("list1", list(vec![text("12"), text("12wd")]))]),
            &kernel
        ),
        Ok(Ambiguous)
    );
    assert_eq!(
        partial_apply(
            &logic,
            &object(vec![("list2", list(vec![text("12"), text("12wd")]))]),
            &kernel
        ),
        Ok(Ambiguous)
    );
    assert_eq!(
        partial_apply(
            &logic,
            &object(vec![
                ("list1", list(vec![text("12"), text("12wd")])),
                ("list2", list(vec![text("13"), text("12wd")])),
            ]),
            &kernel
        ),
        Ok(Resolved(list(vec![text("12"), text("12wd"), text("13"), text("12wd")])))
    );
    assert_eq!(
        partial_apply(
            &logic,
            &object(vec![
                ("list1", list(vec![text("12"), text("12wd")])),
                ("list2", list(vec![text("13"), text("12wd")])),
            ]),
            &kernel
        ),
        apply(
            &logic,
            &object(vec![
                ("list1", list(vec![text("12"), text("12wd")])),
                ("list2", list(vec![text("13"), text("12wd")])),
            ]),
            &kernel
        )
        .map(|val| Resolved(val)),
    );
}

#[test]
fn test_8() {
    let logic = rule("filter", vec![var("people"), rule("==", vec![var("age"), whole(30)])]);
    let people = object(vec![(
        "people",
        list(vec![
            object(vec![("name", text("Alice")), ("age", whole(30))]),
            object(vec![("name", text("Bob")), ("age", whole(25))]),
            object(vec![("name", text("Charlie")), ("age", whole(30))]),
        ]),
    )]);
    assert_eq!(
        partial_apply(&logic, &people, &kernel),
        Ok(Resolved(list(vec![
            object(vec![("name", text("Alice")), ("age", whole(30))]),
            object(vec![("name", text("Charlie")), ("age", whole(30))]),
        ])))
    );
    assert_eq!(
        partial_apply(&logic, &people, &kernel),
        apply(&logic, &people, &kernel).map(|val| Resolved(val)),
    );
    assert_eq!(
        partial_apply(
            &logic,
            &object(vec![(
                "people",
                list(vec![
                    object(vec![("name", text("Alice")), ("age", whole(30))]),
                    object(vec![("name", text("Bob"))]),
                    object(vec![("name", text("Charlie")), ("age", whole(30))]),
                ]),
            )]),
            &kernel
        ),
        Ok(Ambiguous)
    );
    assert_eq!(
        partial_apply(
            &logic,
            &object(vec![
                ("list1", list(vec![text("12"), text("12wd")])),
                ("list2", list(vec![text("13"), text("12wd")])),
            ]),
            &kernel
        ),
        Ok(Ambiguous)
    );
}

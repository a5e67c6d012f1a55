use jsonlogic::data::Data;
use jsonlogic::kernel::{ArithOp, Query, Reply};
use jsonlogic::value::{Number, Value};
use jsonlogic::PartialApplyOutcome::{Ambiguous, Resolved};
use jsonlogic::{apply, partial_apply};

fn kernel(q: Query) -> Reply {
    match q {
        Query::Double(n) => {
            let x: f64 = match n {
                Number::PosInt(u) => u as f64,
                Number::NegInt(i) => i as f64,
                Number::Float(b) => f64::from_bits(b),
            };
            Reply::Bits(x.to_bits())
        }
        Query::Arith(op, a, b) => {
            let x = f64::from_bits(a);
            let y = f64::from_bits(b);
            let r = match op {
                ArithOp::Add => x + y,
                ArithOp::Sub => x - y,
                ArithOp::Mul => x * y,
                ArithOp::Div => x / y,
                ArithOp::Rem => x % y,
            };
            Reply::Bits(r.to_bits())
        }
        Query::Parse(s) => match s.parse::<f64>() {
            Ok(x) => Reply::Bits(x.to_bits()),
            Err(_) => Reply::Undefined,
        },
        Query::Show(b) => match serde_json::Number::from_f64(f64::from_bits(b)) {
            Some(n) => Reply::Text(n.to_string()),
            None => Reply::Undefined,
        },
    }
}

fn whole(n: i64) -> Value {
    if n < 0 {
        Value::Number(Number::NegInt(n))
    } else {
        Value::Number(Number::PosInt(n as u64))
    }
}

fn float(x: f64) -> Value {
    Value::Number(Number::Float(x.to_bits()))
}

fn text(s: &str) -> Value {
    Value::String(s.to_string())
}

fn list(items: Vec<Value>) -> Value {
    Value::Array(items)
}

fn object(members: Vec<(&str, Value)>) -> Value {
    Value::Object(members.into_iter().map(|(k, v)| (k.to_string(), v)).collect())
}

fn rule(op: &str, args: Vec<Value>) -> Value {
    object(vec![(op, list(args))])
}

fn var(name: &str) -> Value {
    object(vec![("var", text(name))])
}

fn sample() -> Value {
    object(vec![
        ("name", text("Ada")),
        ("address", object(vec![("city", text("London")), ("zip", Value::Null)])),
        ("tags", list(vec![text("a"), object(vec![("deep", whole(7))])])),
        ("", text("nameless")),
        ("a.b", text("never found")),
    ])
}

#[test]
fn paths_into_the_data() {
    let value = sample();
    let data = Data::from_json(&value);
    assert_eq!(data.get_plain(), &value);
    assert_eq!(data.get_value("name"), Some(&text("Ada")));
    assert_eq!(data.get_value("address.city"), Some(&text("London")));
    assert_eq!(data.get_value("address.zip"), Some(&Value::Null));
    assert_eq!(data.get_value("tags.0"), Some(&text("a")));
    assert_eq!(data.get_value("tags.+1.deep"), Some(&whole(7)));
    assert_eq!(data.get_value("tags.01"), Some(&object(vec![("deep", whole(7))])));
    assert_eq!(data.get_value(""), Some(&text("nameless")));
    // Whatever cannot be followed is absent.
    assert_eq!(data.get_value("age"), None);
    assert_eq!(data.get_value("address.street"), None);
    assert_eq!(data.get_value("name.first"), None);
    assert_eq!(data.get_value("tags.2"), None);
    assert_eq!(data.get_value("tags.x"), None);
    assert_eq!(data.get_value("tags.-1"), None);
    assert_eq!(data.get_value("tags."), None);
    assert_eq!(data.get_value("tags.99999999999999999999999999"), None);
    assert_eq!(data.get_value("address..city"), None);
    assert_eq!(data.get_value("a.b"), None);
    assert_eq!(Data::from_json(&Value::Null).get_value("a"), None);
    assert_eq!(Data::from_json(&list(vec![whole(4)])).get_value("0"), Some(&whole(4)));
}

#[test]
fn a_variable_in_full_evaluation() {
    let data = sample();
    assert_eq!(apply(&var("address.city"), &data, &kernel), Ok(text("London")));
    assert_eq!(apply(&var("age"), &data, &kernel), Ok(Value::Null));
    assert_eq!(apply(&rule("var", vec![text("age"), whole(30)]), &data, &kernel), Ok(whole(30)));
    assert_eq!(
        apply(&rule("var", vec![text("name"), whole(30)]), &data, &kernel),
        Ok(text("Ada"))
    );
    assert_eq!(apply(&rule("var", vec![]), &data, &kernel), Ok(Value::Null));
    // A number names the path that writes it.
    assert_eq!(
        apply(&rule("var", vec![whole(1)]), &list(vec![text("x"), text("y")]), &kernel),
        Ok(text("y"))
    );
    // The name may be computed.
    assert_eq!(
        apply(
            &rule("var", vec![rule("cat", vec![text("address"), text("."), text("city")])]),
            &data,
            &kernel
        ),
        Ok(text("London"))
    );
    // What is neither text nor number names nothing.
    assert_eq!(
        apply(&rule("var", vec![Value::Bool(true), text("fallback")]), &data, &kernel),
        Ok(text("fallback"))
    );
}

#[test]
fn a_variable_in_partial_evaluation() {
    let data = sample();
    assert_eq!(partial_apply(&var("address.city"), &data, &kernel), Ok(Resolved(text("London"))));
    // A variable that is present with the value `null` is no absent variable.
    assert_eq!(partial_apply(&var("address.zip"), &data, &kernel), Ok(Resolved(Value::Null)));
    assert_eq!(partial_apply(&var("age"), &data, &kernel), Ok(Ambiguous));
    assert_eq!(
        partial_apply(&rule("var", vec![text("age"), whole(30)]), &data, &kernel),
        Ok(Resolved(whole(30)))
    );
    assert_eq!(
        partial_apply(&rule("var", vec![text("age"), var("birth")]), &data, &kernel),
        Ok(Ambiguous)
    );
    assert_eq!(
        partial_apply(&rule("var", vec![var("which")]), &data, &kernel),
        Ok(Ambiguous)
    );
    assert_eq!(partial_apply(&rule("var", vec![]), &data, &kernel), Ok(Resolved(Value::Null)));
}

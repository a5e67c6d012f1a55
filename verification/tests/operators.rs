use jsonlogic::data::Data;
use jsonlogic::expression::Expression;
use jsonlogic::kernel::{ArithOp, Query, Reply};
use jsonlogic::operators::{
    division, double_negation, jp_ver_eq, jp_ver_gt, jp_ver_lteq, less_equal_than, log, modulo,
    negation, regex_match,
};
use jsonlogic::value::{Number, Value};

fn kernel(q: Query) -> Reply {
    match q {
        Query::Double(n) => {
            let x: f64 = match n {
                Number::PosInt(u) => u as f64,
                Number::NegInt(i) => i as f64,
                Number::Float(b) => f64::from_bits(b),
            };
            Reply::Bits(x.to_bits())
        }
        Query::Arith(op, a, b) => {
            let x = f64::from_bits(a);
            let y = f64::from_bits(b);
            let r = match op {
                ArithOp::Add => x + y,
                ArithOp::Sub => x - y,
                ArithOp::Mul => x * y,
                ArithOp::Div => x / y,
                ArithOp::Rem => x % y,
            };
            Reply::Bits(r.to_bits())
        }
        Query::Parse(s) => match s.parse::<f64>() {
            Ok(x) => Reply::Bits(x.to_bits()),
            Err(_) => Reply::Undefined,
        },
        Query::Show(b) => match serde_json::Number::from_f64(f64::from_bits(b)) {
            Some(n) => Reply::Text(n.to_string()),
            None => Reply::Undefined,
        },
    }
}

fn whole(n: i64) -> Value {
    if n < 0 {
        Value::Number(Number::NegInt(n))
    } else {
        Value::Number(Number::PosInt(n as u64))
    }
}

fn float(x: f64) -> Value {
    Value::Number(Number::Float(x.to_bits()))
}

fn text(s: &str) -> Value {
    Value::String(s.to_string())
}

fn list(items: Vec<Value>) -> Value {
    Value::Array(items)
}

fn object(members: Vec<(&str, Value)>) -> Value {
    Value::Object(members.into_iter().map(|(k, v)| (k.to_string(), v)).collect())
}

/// Evaluates an operator on constants, without data.
fn on_constants(
    compute: fn(&[Expression], &Data, &fn(Query) -> Reply) -> Value,
    constants: Vec<Value>,
) -> Value {
    let args: Vec<Expression> = constants.iter().map(|c| Expression::Constant(c)).collect();
    let kernel: fn(Query) -> Reply = kernel;
    compute(&args, &Data::empty(), &kernel)
}

#[test]
fn division_null() {
    assert_eq!(on_constants(division::compute, vec![]), Value::Null);
    assert_eq!(on_constants(division::compute, vec![text("a")]), Value::Null);
    assert_eq!(on_constants(division::compute, vec![whole(1)]), Value::Null);
    assert_eq!(on_constants(division::compute, vec![whole(1), whole(0)]), Value::Null);

    assert_eq!(on_constants(division::compute, vec![whole(1), whole(2)]), float(0.5));
}

#[test]
fn double_negation_test() {
    assert_eq!(on_constants(double_negation::compute, vec![]), Value::Bool(false));
    assert_eq!(on_constants(double_negation::compute, vec![Value::Null]), Value::Bool(false));
    assert_eq!(on_constants(double_negation::compute, vec![Value::Bool(false)]), Value::Bool(false));
    assert_eq!(on_constants(double_negation::compute, vec![Value::Bool(true)]), Value::Bool(true));
}

#[test]
fn jp_ver_eq_equal() {
    assert_eq!(on_constants(jp_ver_eq::compute, vec![]), Value::Bool(false));
    assert_eq!(on_constants(jp_ver_eq::compute, vec![text("test")]), Value::Bool(false));
    assert_eq!(on_constants(jp_ver_eq::compute, vec![text("1.0.3")]), Value::Bool(false));
    assert_eq!(
        on_constants(jp_ver_eq::compute, vec![text("1.0.3"), text("test")]),
        Value::Bool(false)
    );
    assert_eq!(
        on_constants(jp_ver_eq::compute, vec![text("1.0.3"), text("1.0.2")]),
        Value::Bool(false)
    );
    assert_eq!(
        on_constants(jp_ver_eq::compute, vec![text("1.0.3"), text("1.0.3")]),
        Value::Bool(true)
    );
    assert_eq!(
        on_constants(jp_ver_eq::compute, vec![text("1.0.2"), text("1.0.3")]),
        Value::Bool(false)
    );
}

#[test]
fn greater_than() {
    assert_eq!(on_constants(jp_ver_gt::compute, vec![]), Value::Bool(false));
    assert_eq!(on_constants(jp_ver_gt::compute, vec![text("test")]), Value::Bool(false));
    assert_eq!(on_constants(jp_ver_gt::compute, vec![text("1.0.3")]), Value::Bool(false));
    assert_eq!(
        on_constants(jp_ver_gt::compute, vec![text("1.0.3"), text("test")]),
        Value::Bool(false)
    );
    assert_eq!(
        on_constants(jp_ver_gt::compute, vec![text("1.0.3"), text("1.0.2")]),
        Value::Bool(true)
    );
    assert_eq!(
        on_constants(jp_ver_gt::compute, vec![text("1.0.3"), text("1.0.3")]),
        Value::Bool(false)
    );
    assert_eq!(
        on_constants(jp_ver_gt::compute, vec![text("1.0.2"), text("1.0.3")]),
        Value::Bool(false)
    );
}

#[test]
fn jp_ver_lteq_less_equal_than() {
    assert_eq!(on_constants(jp_ver_lteq::compute, vec![]), Value::Bool(false));
    assert_eq!(on_constants(jp_ver_lteq::compute, vec![text("test")]), Value::Bool(false));
    assert_eq!(on_constants(jp_ver_lteq::compute, vec![text("1.0.3")]), Value::Bool(false));
    assert_eq!(
        on_constants(jp_ver_lteq::compute, vec![text("1.0.3"), text("test")]),
        Value::Bool(true)
    );
    assert_eq!(
        on_constants(jp_ver_lteq::compute, vec![text("1.0.2"), text("1.0.3")]),
        Value::Bool(true)
    );
    assert_eq!(
        on_constants(jp_ver_lteq::compute, vec![text("1.0.3"), text("1.0.3")]),
        Value::Bool(true)
    );
    assert_eq!(
        on_constants(jp_ver_lteq::compute, vec![text("1.0.3"), text("1.0.2")]),
        Value::Bool(false)
    );
}

#[test]
fn jp_ver_lteq_between_inclusive() {
    assert_eq!(
        on_constants(jp_ver_lteq::compute, vec![text("1.0.2"), text("1.0.3"), text("1.0.4")]),
        Value::Bool(true)
    );
    assert_eq!(
        on_constants(jp_ver_lteq::compute, vec![text("1.0.2"), text("1.0.3"), text("1.0.3")]),
        Value::Bool(true)
    );
    assert_eq!(
        on_constants(jp_ver_lteq::compute, vec![text("1.0.2"), text("1.0.2"), text("1.0.3")]),
        Value::Bool(true)
    );
    assert_eq!(
        on_constants(jp_ver_lteq::compute, vec![text("1.0.4"), text("1.0.3"), text("1.0.2")]),
        Value::Bool(false)
    );
    assert_eq!(
        on_constants(jp_ver_lteq::compute, vec![text("1.0.2"), text("1.0.1"), text("1.0.3")]),
        Value::Bool(false)
    );
}

#[test]
fn less_equal_than_less_equal_than() {
    assert_eq!(on_constants(less_equal_than::compute, vec![]), Value::Bool(false));
    assert_eq!(on_constants(less_equal_than::compute, vec![whole(1)]), Value::Bool(false));
    assert_eq!(on_constants(less_equal_than::compute, vec![whole(1), whole(2)]), Value::Bool(true));
    assert_eq!(on_constants(less_equal_than::compute, vec![whole(2), whole(2)]), Value::Bool(true));
    assert_eq!(on_constants(less_equal_than::compute, vec![whole(3), whole(2)]), Value::Bool(false));
}

#[test]
fn less_equal_than_between_inclusive() {
    assert_eq!(
        on_constants(less_equal_than::compute, vec![whole(1), whole(2), whole(3)]),
        Value::Bool(true)
    );
    assert_eq!(
        on_constants(less_equal_than::compute, vec![whole(1), whole(2), whole(2)]),
        Value::Bool(true)
    );
    assert_eq!(
        on_constants(less_equal_than::compute, vec![whole(2), whole(2), whole(3)]),
        Value::Bool(true)
    );
    assert_eq!(
        on_constants(less_equal_than::compute, vec![whole(2), whole(4), whole(3)]),
        Value::Bool(false)
    );
}

#[test]
fn log_test() {
    assert_eq!(on_constants(log::compute, vec![]), Value::Null);
    assert_eq!(on_constants(log::compute, vec![text("foo")]), text("foo"));
    assert_eq!(on_constants(log::compute, vec![text("foo"), text("bar")]), text("foo"));
    assert_eq!(
        on_constants(
            log::compute,
            vec![object(vec![("foo", list(vec![whole(1), whole(2), whole(3)]))]), text("bar")]
        ),
        object(vec![("foo", list(vec![whole(1), whole(2), whole(3)]))])
    );
}

#[test]
fn modulo_null() {
    assert_eq!(modulo::compute(&[], &kernel), Value::Null);
    assert_eq!(modulo::compute(&[text("a")], &kernel), Value::Null);
    assert_eq!(modulo::compute(&[whole(1)], &kernel), Value::Null);
    assert_eq!(modulo::compute(&[whole(1), whole(0)], &kernel), Value::Null);

    assert_eq!(modulo::compute(&[whole(1), whole(2)], &kernel), float(1.0));
    assert_eq!(modulo::compute(&[whole(101), whole(2)], &kernel), float(1.0));
    assert_eq!(modulo::compute(&[whole(102), whole(2)], &kernel), float(0.0));
}

#[test]
fn negation_test() {
    assert_eq!(on_constants(negation::compute, vec![]), Value::Bool(true));
    assert_eq!(on_constants(negation::compute, vec![Value::Null]), Value::Bool(true));
    assert_eq!(on_constants(negation::compute, vec![Value::Bool(false)]), Value::Bool(true));
    assert_eq!(on_constants(negation::compute, vec![Value::Bool(true)]), Value::Bool(false));
}

#[test]
fn regex_result() {
    assert_eq!(on_constants(regex_match::compute, vec![]), Value::Bool(false));
    assert_eq!(on_constants(regex_match::compute, vec![text("test")]), Value::Bool(false));
    assert_eq!(
        on_constants(regex_match::compute, vec![text("test"), text("test")]),
        Value::Bool(true)
    );
    assert_eq!(
        on_constants(regex_match::compute, vec![text("super"), text("test")]),
        Value::Bool(false)
    );
    assert_eq!(
        on_constants(regex_match::compute, vec![text("TESTabctest"), text("test"), text("i")]),
        Value::Bool(true)
    );
    assert_eq!(
        on_constants(regex_match::compute, vec![text("abctestabctest"), text("test"), text("")]),
        Value::Bool(true)
    );
    assert_eq!(
        on_constants(regex_match::compute, vec![text("testabctest"), text("(test)abc")]),
        Value::Bool(true)
    );
    assert_eq!(
        on_constants(regex_match::compute, vec![text("abctestabctest"), text("^test")]),
        Value::Bool(false)
    );
    assert_eq!(
        on_constants(regex_match::compute, vec![text("testabctest"), text("^test")]),
        Value::Bool(true)
    );
}

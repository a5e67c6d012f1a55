use jsonlogic::apply;
use jsonlogic::kernel::{ArithOp, Query, Reply};
use jsonlogic::value::{Number, Value};

fn kernel(q: Query) -> Reply {
    match q {
        Query::Double(n) => {
            let x: f64 = match n {
                Number::PosInt(u) => u as f64,
                Number::NegInt(i) => i as f64,
                Number::Float(b) => f64::from_bits(b),
            };
            Reply::Bits(x.to_bits())
        }
        Query::Arith(op, a, b) => {
            let x = f64::from_bits(a);
            let y = f64::from_bits(b);
            let r = match op {
                ArithOp::Add => x + y,
                ArithOp::Sub => x - y,
                ArithOp::Mul => x * y,
                ArithOp::Div => x / y,
                ArithOp::Rem => x % y,
            };
            Reply::Bits(r.to_bits())
        }
        Query::Parse(s) => match s.parse::<f64>() {
            Ok(x) => Reply::Bits(x.to_bits()),
            Err(_) => Reply::Undefined,
        },
        Query::Show(b) => match serde_json::Number::from_f64(f64::from_bits(b)) {
            Some(n) => Reply::Text(n.to_string()),
            None => Reply::Undefined,
        },
    }
}

fn text(s: &str) -> Value {
    Value::String(s.to_string())
}

fn list(items: Vec<Value>) -> Value {
    Value::Array(items)
}

fn object(members: Vec<(&str, Value)>) -> Value {
    Value::Object(members.into_iter().map(|(k, v)| (k.to_string(), v)).collect())
}

fn rule(op: &str, args: Vec<Value>) -> Value {
    object(vec![(op, list(args))])
}

fn var(name: &str) -> Value {
    object(vec![("var", text(name))])
}

// Juspay version equal
#[test]
fn jp_ver_eq() {
    assert_eq!(
        apply(&rule("jp_ver_eq", vec![text("2.0.4-rc.12"), text("2.0.3-rc.89")]), &Value::Null, &kernel),
        Ok(Value::Bool(false))
    );
    assert_eq!(
        apply(&rule("jp_ver_eq", vec![text("1.0.3"), text("1.0.3")]), &Value::Null, &kernel),
        Ok(Value::Bool(true))
    );
    assert_eq!(
        apply(&rule("jp_ver_eq", vec![var("version"), text("1.0.3")]), &object(vec![("version", text("1.0.3"))]), &kernel),
        Ok(Value::Bool(true))
    );
    assert_eq!(
        apply(&rule("jp_ver_eq", vec![var("version"), text("1.0.3")]), &object(vec![("version", text("1.0.2"))]), &kernel),
        Ok(Value::Bool(false))
    );
}

// Juspay version greater than
#[test]
fn jp_ver_gt() {
    assert_eq!(
        apply(&rule("jp_ver_gt", vec![text("2.0.4-rc.12"), text("2.0.3-rc.89")]), &Value::Null, &kernel),
        Ok(Value::Bool(true))
    );
    assert_eq!(
        apply(&rule("jp_ver_gt", vec![text("1.0.4"), text("1.0.3")]), &Value::Null, &kernel),
        Ok(Value::Bool(true))
    );
    assert_eq!(
        apply(&rule("jp_ver_gt", vec![var("version"), text("1.0.3")]), &object(vec![("version", text("1.0.3"))]), &kernel),
        Ok(Value::Bool(false))
    );
    assert_eq!(
        apply(&rule("jp_ver_gt", vec![var("version"), text("1.0.3")]), &object(vec![("version", text("1.0.4"))]), &kernel),
        Ok(Value::Bool(true))
    );
}

// Juspay version greater than or equal
#[test]
fn jp_ver_ge() {
    assert_eq!(
        apply(&rule("jp_ver_ge", vec![text("2.0.4-rc.12"), text("2.0.3-rc.89")]), &Value::Null, &kernel),
        Ok(Value::Bool(true))
    );
    assert_eq!(
        apply(&rule("jp_ver_ge", vec![text("1.0.4"), text("1.0.3")]), &Value::Null, &kernel),
        Ok(Value::Bool(true))
    );
    assert_eq!(
        apply(&rule("jp_ver_ge", vec![var("version"), text("1.0.3")]), &object(vec![("version", text("1.0.3"))]), &kernel),
        Ok(Value::Bool(true))
    );
    assert_eq!(
        apply(&rule("jp_ver_ge", vec![var("version"), text("1.0.3")]), &object(vec![("version", text("1.0.4"))]), &kernel),
        Ok(Value::Bool(true))
    );
}

// Juspay version lesser than
#[test]
fn jp_ver_lt() {
    assert_eq!(
        apply(&rule("jp_ver_lt", vec![text("2.0.4-rc.12"), text("2.0.3-rc.89")]), &Value::Null, &kernel),
        Ok(Value::Bool(false))
    );
    assert_eq!(
        apply(&rule("jp_ver_lt", vec![text("1.0.2"), text("1.0.3")]), &Value::Null, &kernel),
        Ok(Value::Bool(true))
    );
    assert_eq!(
        apply(&rule("jp_ver_lt", vec![var("version"), text("1.0.3")]), &object(vec![("version", text("1.0.3"))]), &kernel),
        Ok(Value::Bool(false))
    );
    assert_eq!(
        apply(&rule("jp_ver_lt", vec![var("version"), text("1.0.3")]), &object(vec![("version", text("1.0.2"))]), &kernel),
        Ok(Value::Bool(true))
    );
}

// Juspay version lesser than or equal
#[test]
fn jp_ver_le() {
    assert_eq!(
        apply(&rule("jp_ver_le", vec![text("2.0.4-rc.12"), text("2.0.3-rc.89")]), &Value::Null, &kernel),
        Ok(Value::Bool(false))
    );
    assert_eq!(
        apply(&rule("jp_ver_le", vec![text("1.0.2"), text("1.0.3")]), &Value::Null, &kernel),
        Ok(Value::Bool(true))
    );
    assert_eq!(
        apply(&rule("jp_ver_le", vec![var("version"), text("1.0.3")]), &object(vec![("version", text("1.0.3"))]), &kernel),
        Ok(Value::Bool(true))
    );
    assert_eq!(
        apply(&rule("jp_ver_le", vec![var("version"), text("1.0.3")]), &object(vec![("version", text("1.0.2"))]), &kernel),
        Ok(Value::Bool(true))
    );
}

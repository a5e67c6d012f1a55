use jsonlogic::kernel::{is_finite, negate, rank_of, ArithOp, Query, Reply};
use jsonlogic::logic::{
    coerce_to_number, coerce_to_str, greater_equal_than, greater_than, is_abstract_equal,
    is_strict_equal, is_truthy, less_equal_than, less_than, number_to_str,
};
use jsonlogic::text::trim;
use jsonlogic::value::{Number, Value};

fn kernel(q: Query) -> Reply {
    match q {
        Query::Double(n) => {
            let x: f64 = match n {
                Number::PosInt(u) => u as f64,
                Number::NegInt(i) => i as f64,
                Number::Float(b) => f64::from_bits(b),
            };
            Reply::Bits(x.to_bits())
        }
        Query::Arith(op, a, b) => {
            let x = f64::from_bits(a);
            let y = f64::from_bits(b);
            let r = match op {
                ArithOp::Add => x + y,
                ArithOp::Sub => x - y,
                ArithOp::Mul => x * y,
                ArithOp::Div => x / y,
                ArithOp::Rem => x % y,
            };
            Reply::Bits(r.to_bits())
        }
        Query::Parse(s) => match s.parse::<f64>() {
            Ok(x) => Reply::Bits(x.to_bits()),
            Err(_) => Reply::Undefined,
        },
        Query::Show(b) => match serde_json::Number::from_f64(f64::from_bits(b)) {
            Some(n) => Reply::Text(n.to_string()),
            None => Reply::Undefined,
        },
    }
}

fn whole(n: i64) -> Value {
    if n < 0 {
        Value::Number(Number::NegInt(n))
    } else {
        Value::Number(Number::PosInt(n as u64))
    }
}

fn float(x: f64) -> Value {
    Value::Number(Number::Float(x.to_bits()))
}

fn text(s: &str) -> Value {
    Value::String(s.to_string())
}

fn list(items: Vec<Value>) -> Value {
    Value::Array(items)
}

fn object(members: Vec<(&str, Value)>) -> Value {
    Value::Object(members.into_iter().map(|(k, v)| (k.to_string(), v)).collect())
}

#[test]
fn what_counts_as_true() {
    for falsy in [
        Value::Null,
        Value::Bool(false),
        whole(0),
        float(0.0),
        float(-0.0),
        text(""),
        list(vec![]),
    ] {
        assert!(!is_truthy(&falsy), "{:?}", falsy);
    }
    for truthy in [
        Value::Bool(true),
        whole(1),
        whole(-1),
        float(0.5),
        text("0"),
        text("false"),
        list(vec![whole(0)]),
        object(vec![]),
    ] {
        assert!(is_truthy(&truthy), "{:?}", truthy);
    }
}

#[test]
fn values_as_text() {
    assert_eq!(coerce_to_str(&Value::Null, &kernel), "null");
    assert_eq!(coerce_to_str(&Value::Bool(true), &kernel), "true");
    assert_eq!(coerce_to_str(&Value::Bool(false), &kernel), "false");
    assert_eq!(coerce_to_str(&whole(0), &kernel), "0");
    assert_eq!(coerce_to_str(&whole(1203), &kernel), "1203");
    assert_eq!(coerce_to_str(&whole(-45), &kernel), "-45");
    assert_eq!(coerce_to_str(&float(2.5), &kernel), "2.5");
    assert_eq!(coerce_to_str(&text("abc"), &kernel), "abc");
    assert_eq!(coerce_to_str(&list(vec![]), &kernel), "");
    assert_eq!(
        coerce_to_str(&list(vec![whole(1), text("a"), Value::Null, list(vec![whole(2)])]), &kernel),
        "1,a,null,2"
    );
    assert_eq!(coerce_to_str(&object(vec![("a", whole(1))]), &kernel), "[object Object]");
    assert_eq!(number_to_str(Number::PosInt(u64::MAX), &kernel), "18446744073709551615");
    assert_eq!(number_to_str(Number::NegInt(i64::MIN), &kernel), "-9223372036854775808");
    assert_eq!(number_to_str(Number::NegInt(7), &kernel), "7");
}

#[test]
fn values_as_numbers() {
    assert_eq!(coerce_to_number(&Value::Null, &kernel), Some(Number::PosInt(0)));
    assert_eq!(coerce_to_number(&Value::Bool(true), &kernel), Some(Number::PosInt(1)));
    assert_eq!(coerce_to_number(&Value::Bool(false), &kernel), Some(Number::PosInt(0)));
    assert_eq!(coerce_to_number(&whole(-3), &kernel), Some(Number::NegInt(-3)));
    assert_eq!(coerce_to_number(&text("12"), &kernel), Some(Number::Float(12f64.to_bits())));
    assert_eq!(coerce_to_number(&text(" 1.5 "), &kernel), Some(Number::Float(1.5f64.to_bits())));
    assert_eq!(coerce_to_number(&text(""), &kernel), Some(Number::PosInt(0)));
    assert_eq!(coerce_to_number(&text(" \t\n\u{a0}\u{3000}"), &kernel), Some(Number::PosInt(0)));
    assert_eq!(coerce_to_number(&text("\u{2003}7\r\n"), &kernel), Some(Number::Float(7f64.to_bits())));
    assert_eq!(coerce_to_number(&text("1 2"), &kernel), None);
    assert_eq!(coerce_to_number(&text("abc"), &kernel), None);
    assert_eq!(coerce_to_number(&text("inf"), &kernel), None);
    assert_eq!(coerce_to_number(&list(vec![]), &kernel), Some(Number::PosInt(0)));
    assert_eq!(coerce_to_number(&list(vec![whole(5)]), &kernel), Some(Number::Float(5f64.to_bits())));
    assert_eq!(coerce_to_number(&list(vec![whole(5), whole(6)]), &kernel), None);
    assert_eq!(coerce_to_number(&object(vec![]), &kernel), None);
}

#[test]
fn strict_equality() {
    let same = |a: &Value, b: &Value| is_strict_equal(a, b, &kernel);
    assert!(same(&Value::Null, &Value::Null));
    assert!(same(&whole(1), &float(1.0)));
    assert!(same(&float(0.0), &float(-0.0)));
    assert!(same(&whole(-2), &float(-2.0)));
    assert!(!same(&whole(1), &whole(2)));
    assert!(!same(&whole(1), &text("1")));
    assert!(!same(&whole(0), &Value::Bool(false)));
    assert!(!same(&Value::Null, &whole(0)));
    assert!(same(&text("a"), &text("a")));
    assert!(!same(&text("a"), &text("b")));
    assert!(same(&list(vec![whole(1), text("a")]), &list(vec![float(1.0), text("a")])));
    assert!(!same(&list(vec![whole(1)]), &list(vec![whole(1), whole(2)])));
    assert!(!same(&list(vec![whole(1), whole(2)]), &list(vec![whole(2), whole(1)])));
    // The order of an object's members does not count.
    assert!(same(
        &object(vec![("a", whole(1)), ("b", list(vec![]))]),
        &object(vec![("b", list(vec![])), ("a", whole(1))])
    ));
    assert!(!same(&object(vec![("a", whole(1))]), &object(vec![("a", whole(2))])));
    assert!(!same(&object(vec![("a", whole(1))]), &object(vec![("a", whole(1)), ("b", whole(1))])));
    assert!(!same(&object(vec![("a", whole(1)), ("b", whole(1))]), &object(vec![("a", whole(1))])));
    // Of two members with one key, the first is the one that counts.
    assert!(same(
        &object(vec![("a", whole(1)), ("a", whole(2))]),
        &object(vec![("a", whole(1))])
    ));
}

#[test]
fn loose_equality() {
    let same = |a: &Value, b: &Value| {
        let forth = is_abstract_equal(a, b, &kernel);
        let back = is_abstract_equal(b, a, &kernel);
        assert_eq!(forth, back, "{:?} and {:?}", a, b);
        forth
    };
    assert!(same(&Value::Null, &Value::Null));
    assert!(!same(&Value::Null, &whole(0)));
    assert!(!same(&Value::Null, &text("")));
    assert!(!same(&Value::Null, &Value::Bool(false)));
    assert!(same(&whole(1), &text("1")));
    assert!(same(&float(1.5), &text("1.5")));
    assert!(same(&whole(0), &text("")));
    assert!(!same(&whole(1), &text("one")));
    assert!(!same(&whole(1), &text("2")));
    assert!(same(&Value::Bool(true), &whole(1)));
    assert!(same(&Value::Bool(false), &whole(0)));
    assert!(same(&Value::Bool(true), &text("1")));
    assert!(!same(&Value::Bool(true), &whole(2)));
    assert!(!same(&Value::Bool(true), &Value::Bool(false)));
    assert!(same(&list(vec![whole(1), whole(2)]), &text("1,2")));
    assert!(!same(&list(vec![whole(1), whole(2)]), &text("1, 2")));
    assert!(same(&list(vec![whole(7)]), &whole(7)));
    assert!(same(&list(vec![whole(1)]), &list(vec![float(1.0)])));
    assert!(same(&text("a"), &text("a")));
    assert!(!same(&text("a"), &text("A")));
    assert!(same(&object(vec![]), &text("[object Object]")));
    assert!(!same(&object(vec![]), &whole(0)));
}

#[test]
fn ordering() {
    let lt = |a: &Value, b: &Value| less_than(a, b, &kernel);
    let le = |a: &Value, b: &Value| less_equal_than(a, b, &kernel);
    assert!(lt(&whole(1), &whole(2)));
    assert!(!lt(&whole(2), &whole(2)));
    assert!(le(&whole(2), &whole(2)));
    assert!(lt(&whole(-5), &whole(3)));
    assert!(lt(&whole(-5), &float(-4.5)));
    assert!(lt(&float(-4.5), &whole(0)));
    assert!(lt(&float(1.5), &whole(2)));
    assert!(!lt(&float(-0.0), &float(0.0)));
    assert!(le(&float(-0.0), &float(0.0)));
    assert!(lt(&whole(u64::MAX as i64 & i64::MAX), &Value::Number(Number::PosInt(u64::MAX))));
    // Two strings that both write numbers are compared as numbers.
    assert!(lt(&text("9"), &text("10")));
    assert!(lt(&text("9"), &whole(10)));
    assert!(lt(&Value::Null, &whole(1)));
    assert!(lt(&Value::Bool(false), &Value::Bool(true)));
    // Where one side has no number, both are compared as texts.
    assert!(lt(&text("apple"), &text("banana")));
    assert!(!lt(&text("banana"), &text("apple")));
    assert!(lt(&text("10"), &text("9a")));
    assert!(lt(&whole(10), &text("9a")));
    assert!(le(&text("a"), &text("a")));
    assert!(lt(&text("a"), &text("ab")));
    assert!(lt(&text("Z"), &text("a")));
    assert!(greater_than(&whole(3), &whole(2), &kernel));
    assert!(!greater_than(&whole(2), &whole(3), &kernel));
    assert!(greater_equal_than(&whole(3), &whole(3), &kernel));
    assert!(!greater_equal_than(&whole(2), &whole(3), &kernel));
}

#[test]
fn doubles_by_their_bits() {
    assert_eq!(rank_of(0f64.to_bits()), 0);
    assert_eq!(rank_of((-0f64).to_bits()), 0);
    assert!(rank_of(1.5f64.to_bits()) < rank_of(2.5f64.to_bits()));
    assert!(rank_of((-2.5f64).to_bits()) < rank_of((-1.5f64).to_bits()));
    assert!(rank_of((-1e-300f64).to_bits()) < rank_of(1e-300f64.to_bits()));
    assert!(rank_of(f64::MIN.to_bits()) < rank_of(f64::MAX.to_bits()));
    assert_eq!(rank_of(1f64.to_bits()), 0x3ff0_0000_0000_0000);
    assert!(is_finite(f64::MAX.to_bits()));
    assert!(is_finite(f64::MIN.to_bits()));
    assert!(!is_finite(f64::INFINITY.to_bits()));
    assert!(!is_finite(f64::NEG_INFINITY.to_bits()));
    assert!(!is_finite(f64::NAN.to_bits()));
    assert_eq!(negate(1.5f64.to_bits()), (-1.5f64).to_bits());
    assert_eq!(negate((-1.5f64).to_bits()), 1.5f64.to_bits());
    assert_eq!(negate(0f64.to_bits()), (-0f64).to_bits());
}

#[test]
fn white_space_at_the_ends() {
    assert_eq!(trim(""), "");
    assert_eq!(trim("   "), "");
    assert_eq!(trim(" a b "), "a b");
    assert_eq!(trim("\t\u{b}\u{c}x\u{85}\u{1680}\u{2028}\u{2029}\u{202f}\u{205f}"), "x");
    assert_eq!(trim("\u{200b}x"), "\u{200b}x");
    assert_eq!(trim("x"), "x");
}

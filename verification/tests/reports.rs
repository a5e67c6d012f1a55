use jsonlogic::expression::Expression;
use jsonlogic::get_variable_names;
use jsonlogic::operators::Operator;
use jsonlogic::validation::{validate, RequireAndWrapper, ValidationConfig, ValidationError};
use jsonlogic::value::{Number, Value};

fn whole(n: i64) -> Value {
    if n < 0 {
        Value::Number(Number::NegInt(n))
    } else {
        Value::Number(Number::PosInt(n as u64))
    }
}

fn text(s: &str) -> Value {
    Value::String(s.to_string())
}

fn list(items: Vec<Value>) -> Value {
    Value::Array(items)
}

fn object(members: Vec<(&str, Value)>) -> Value {
    Value::Object(members.into_iter().map(|(k, v)| (k.to_string(), v)).collect())
}

fn rule(op: &str, args: Vec<Value>) -> Value {
    object(vec![(op, list(args))])
}

fn var(name: &str) -> Value {
    object(vec![("var", text(name))])
}

#[test]
fn operators_by_their_keys() {
    for (key, op) in [
        ("==", Operator::Equal),
        ("===", Operator::StrictEqual),
        ("!=", Operator::NotEqual),
        ("!==", Operator::StrictNotEqual),
        ("var", Operator::Variable),
        ("!", Operator::Negation),
        ("!!", Operator::DoubleNegation),
        ("if", Operator::If),
        ("?:", Operator::If),
        ("or", Operator::Or),
        ("and", Operator::And),
        ("<", Operator::LessThan),
        ("<=", Operator::LessEqualThan),
        (">", Operator::GreaterThan),
        (">=", Operator::GreaterEqualThan),
        ("+", Operator::Addition),
        ("-", Operator::Subtraction),
        ("*", Operator::Multiplication),
        ("/", Operator::Division),
        ("%", Operator::Modulo),
        ("map", Operator::MapEach),
        ("filter", Operator::Filter),
        ("reduce", Operator::Reduce),
        ("all", Operator::All),
        ("some", Operator::SomeOf),
        ("none", Operator::NoneOf),
        ("merge", Operator::Merge),
        ("in", Operator::In),
        ("cat", Operator::Cat),
        ("log", Operator::Log),
        ("jp_ver_eq", Operator::JuspayVerEq),
        ("jp_ver_gt", Operator::JuspayVerGt),
        ("jp_ver_lt", Operator::JuspayVerLt),
        ("jp_ver_ge", Operator::JuspayVerGtEq),
        ("jp_ver_le", Operator::JuspayVerLtEq),
        ("match", Operator::RegexMatch),
    ] {
        assert_eq!(Operator::from_str(key), Some(op), "{}", key);
    }
    for key in ["", "=", "====", "VAR", "and ", "jp_ver", "matches"] {
        assert_eq!(Operator::from_str(key), None, "{}", key);
    }
    assert_eq!(Operator::Equal.name(), "Equal");
    assert_eq!(Operator::JuspayVerLtEq.name(), "JuspayVerLtEq");
    assert!(Operator::In.is_comparison());
    assert!(!Operator::And.is_comparison());
}

#[test]
fn names_in_the_order_of_the_rule() {
    let logic = rule(
        "and",
        vec![
            rule("<", vec![var("b"), var("a")]),
            rule("or", vec![var("a"), var("c.d"), rule("var", vec![text("b"), var("skipped")])]),
        ],
    );
    // The default of a `var` is read too, after its name.
    assert_eq!(
        get_variable_names(&logic),
        Ok(vec!["b".to_string(), "a".to_string(), "c.d".to_string(), "skipped".to_string()])
    );
    assert_eq!(
        get_variable_names(&rule("var", vec![text("a"), rule("var", vec![text("b"), var("a")])])),
        Ok(vec!["a".to_string(), "b".to_string()])
    );
    assert_eq!(
        get_variable_names(&rule("var", vec![text("a"), rule("var", vec![])])),
        Err(String::from("found Variable operator without arguments"))
    );
    assert_eq!(
        get_variable_names(&rule("var", vec![text("a"), rule("var", vec![whole(1)])])),
        Err(String::from("found Variable operator with non string argument"))
    );
    assert_eq!(get_variable_names(&whole(1)), Ok(vec![]));
    assert_eq!(
        get_variable_names(&rule("nope", vec![])),
        Err(String::from("Unrecognized operation nope"))
    );
    assert_eq!(
        get_variable_names(&rule("and", vec![var("a"), rule("var", vec![])])),
        Err(String::from("found Variable operator without arguments"))
    );
    assert_eq!(
        get_variable_names(&rule("var", vec![whole(1)])),
        Err(String::from("found Variable operator with non string argument"))
    );
    assert_eq!(
        get_variable_names(&rule("var", vec![var("a")])),
        Err(String::from("found Variable operator with non static argument"))
    );
}

#[test]
fn comparisons_with_their_values() {
    let low = whole(18);
    let high = list(vec![text("x"), text("y")]);
    let age = text("age");
    let kind = text("kind");
    let logic = Expression::Computed(
        Operator::And,
        vec![
            Expression::Computed(
                Operator::GreaterThan,
                vec![
                    Expression::Computed(Operator::Variable, vec![Expression::Constant(&age)]),
                    Expression::Constant(&low),
                ],
            ),
            Expression::Computed(
                Operator::In,
                vec![
                    Expression::Computed(Operator::Variable, vec![Expression::Constant(&kind)]),
                    Expression::Constant(&high),
                ],
            ),
            Expression::Computed(
                Operator::Equal,
                vec![Expression::Constant(&low), Expression::Constant(&low)],
            ),
        ],
    );
    assert_eq!(
        logic.get_variable_names_and_values(),
        Ok(vec![
            ("age".to_string(), "GreaterThan".to_string(), whole(18)),
            ("kind".to_string(), "In".to_string(), list(vec![text("x"), text("y")])),
        ])
    );
    assert_eq!(
        Expression::Computed(Operator::Equal, vec![]).get_variable_names_and_values(),
        Err(String::from("Found variable operator without value"))
    );
}

#[test]
fn what_validation_reports() {
    let free = ValidationConfig::default();
    assert!(free.require_and_wrapper.is_none());
    assert_eq!(validate(&whole(1), &free), Ok(()));
    assert_eq!(validate(&rule("nope", vec![]), &free), Ok(()));

    let lenient = ValidationConfig { require_and_wrapper: Some(RequireAndWrapper { allow_empty: true }) };
    let strict = ValidationConfig { require_and_wrapper: Some(RequireAndWrapper { allow_empty: false }) };
    assert_eq!(validate(&rule("and", vec![]), &strict), Ok(()));
    assert_eq!(validate(&object(vec![]), &lenient), Ok(()));
    assert_eq!(
        validate(&object(vec![]), &strict),
        Err(ValidationError::new("Empty JSON Logic is not allowed", "$"))
    );
    for other in [whole(1), list(vec![]), rule("or", vec![]), object(vec![("and", list(vec![])), ("or", list(vec![]))])] {
        assert_eq!(
            validate(&other, &lenient),
            Err(ValidationError::new("JSON Logic must be wrapped in an 'and' block", "$"))
        );
    }
    assert_eq!(
        validate(&rule("and", vec![rule("nope", vec![])]), &lenient),
        Err(ValidationError::new("Unrecognized operation nope", "$"))
    );
    let error = ValidationError::new("m", "p");
    assert_eq!(error.message, "m");
    assert_eq!(error.path, "p");
}

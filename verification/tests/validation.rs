use jsonlogic::validation::{validate, RequireAndWrapper, ValidationConfig};
use jsonlogic::value::{Number, Value};

fn whole(n: i64) -> Value {
    if n < 0 {
        Value::Number(Number::NegInt(n))
    } else {
        Value::Number(Number::PosInt(n as u64))
    }
}

fn text(s: &str) -> Value {
    Value::String(s.to_string())
}

fn list(items: Vec<Value>) -> Value {
    Value::Array(items)
}

fn object(members: Vec<(&str, Value)>) -> Value {
    Value::Object(members.into_iter().map(|(k, v)| (k.to_string(), v)).collect())
}

fn rule(op: &str, args: Vec<Value>) -> Value {
    object(vec![(op, list(args))])
}

fn var(name: &str) -> Value {
    object(vec![("var", text(name))])
}

#[test]
fn test_and_wrapper_validation() {
    // Require and wrapper with empty allowed
    let config = ValidationConfig {
        require_and_wrapper: Some(RequireAndWrapper { allow_empty: true }),
        ..Default::default()
    };

    let empty_logic = object(vec![]);
    assert!(validate(&empty_logic, &config).is_ok());

    let valid_logic = rule(
        "and",
        vec![
            rule("==", vec![var("age"), whole(18)]),
            rule(">=", vec![var("score"), whole(70)]),
        ],
    );
    assert!(validate(&valid_logic, &config).is_ok());

    let invalid_logic = rule("==", vec![var("age"), whole(18)]);
    assert!(validate(&invalid_logic, &config).is_err());

    // Require and wrapper with empty not allowed
    let strict_config = ValidationConfig {
        require_and_wrapper: Some(RequireAndWrapper { allow_empty: false }),
        ..Default::default()
    };

    // Invalid unwrapped logic should fail
    assert!(validate(&invalid_logic, &config).is_err());

    // Empty logic should fail
    assert!(validate(&empty_logic, &strict_config).is_err());

    // And-wrapped logic should still pass
    assert!(validate(&valid_logic, &strict_config).is_ok());
}

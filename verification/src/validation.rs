//! Checks on the shape of a rule document.

use crate::expression::{parse, Expr, Expression};
use crate::operators::Operator;
use crate::value::{object_view, Json, Value};
use vstd::prelude::*;

verus! {

/// Represents the result of a validation.
pub type ValidationResult = Result<(), ValidationError>;

/// Represents a validation error.
#[derive(Debug, PartialEq)]
pub struct ValidationError {
    pub message: String,
    pub path: String,
}

impl ValidationError {
    pub fn new(message: &str, path: &str) -> (error: Self)
        ensures
            error.message@ == message@,
            error.path@ == path@,
    {
        ValidationError { message: message.to_owned(), path: path.to_owned() }
    }
}

/// Configuration for validating JSON Logic expressions.
pub struct ValidationConfig {
    /// If Some, ensures all conditions are wrapped in an 'and' block.
    /// Empty JSON logic objects are allowed if allow_empty is true.
    pub require_and_wrapper: Option<RequireAndWrapper>,
}

/// Configuration for requiring JSON Logic to be wrapped in an 'and' block
#[derive(Debug, Clone, Copy)]
pub struct RequireAndWrapper {
    /// If true, allows empty JSON logic objects (e.g., `{}`)
    pub allow_empty: bool,
}

impl Default for ValidationConfig {
    fn default() -> (config: Self)
        ensures
            config.require_and_wrapper is None,
    {
        ValidationConfig { require_and_wrapper: None }
    }
}

/// What a failed validation reports: a message, and the place in the
/// document that it is about.
pub type Finding = (Seq<char>, Seq<char>);

/// The place that every finding names: the document as a whole.
pub open spec fn root() -> Seq<char> {
    "$"@
}

/// What is found where a rule has to be wrapped in `and`: nothing where
/// the document is an `and`, or is the empty object and that is allowed.
/// A document that does not parse is reported with the parser's message.
pub open spec fn wrapper_finding(j: Json, allow_empty: bool) -> Option<Finding> {
    match parse(j) {
        Err(msg) => Some((msg, root())),
        Ok(Expr::Computed(Operator::And, _)) => None,
        Ok(Expr::Constant(Json::Object(members))) if members.len() == 0 => if allow_empty {
            None
        } else {
            Some(("Empty JSON Logic is not allowed"@, root()))
        },
        Ok(_) => Some(("JSON Logic must be wrapped in an 'and' block"@, root())),
    }
}

/// What the validation of the document `j` finds under `config`.
pub open spec fn finding(j: Json, config: ValidationConfig) -> Option<Finding> {
    match config.require_and_wrapper {
        Some(require_and) => wrapper_finding(j, require_and.allow_empty),
        None => None,
    }
}

/// The view of a validation result.
pub open spec fn finding_of(r: ValidationResult) -> Option<Finding> {
    match r {
        Ok(()) => None,
        Err(error) => Some((error.message@, error.path@)),
    }
}

/// Validates a JSON Logic expression against the provided configuration.
pub fn validate(json_logic: &Value, config: &ValidationConfig) -> (r: ValidationResult)
    ensures
        finding_of(r) == finding(json_logic@, *config),
{
    // Check if the JSON Logic is properly wrapped in an 'and' block if required
    if let Some(require_and) = &config.require_and_wrapper {
        return validate_and_wrapper(json_logic, require_and);
    }
    Ok(())
}

/// Validates that JSON Logic is properly wrapped in an 'and' block.
fn validate_and_wrapper(json_logic: &Value, config: &RequireAndWrapper) -> (r: ValidationResult)
    ensures
        finding_of(r) == wrapper_finding(json_logic@, config.allow_empty),
{
    let ast = match Expression::from_json(json_logic) {
        Ok(ast) => ast,
        Err(err) => {
            return Err(ValidationError::new(err.as_str(), "$"));
        },
    };
    match ast {
        Expression::Computed(operator, args) => {
            proof {
                crate::expression::computed_view(operator, args);
            }
            match operator {
                Operator::And => Ok(()),
                _ => Err(
                    ValidationError::new("JSON Logic must be wrapped in an 'and' block", "$"),
                ),
            }
        },
        Expression::Constant(value) => {
            match value {
                Value::Object(obj) => {
                    proof {
                        object_view(*obj);
                    }
                    if obj.len() == 0 {
                        if config.allow_empty {
                            return Ok(());
                        } else {
                            return Err(
                                ValidationError::new("Empty JSON Logic is not allowed", "$"),
                            );
                        }
                    }
                },
                _ => {},
            }
            Err(ValidationError::new("JSON Logic must be wrapped in an 'and' block", "$"))
        },
    }
}

} // verus!

//! Purity: evaluation is a function of the rule, the data and the
//! kernel.

use crate::kernel::Oracle;
use crate::value::{Json, Value};
use crate::{applied, applied_view, partly_applied, partly_applied_view, PartialApplyOutcome};
use vstd::prelude::*;

verus! {

/// Two results of `apply` for the same rule, the same data and the same
/// kernel are the same, be it a value or a message.
pub proof fn apply_is_pure(
    o: Oracle,
    rule: Json,
    data: Json,
    first: Result<Value, String>,
    second: Result<Value, String>,
)
    requires
        applied_view(first) == applied(o, rule, data),
        applied_view(second) == applied(o, rule, data),
    ensures
        applied_view(first) == applied_view(second),
{
}

/// Two results of `partial_apply` for the same rule, the same data and
/// the same kernel are the same.
pub proof fn partial_apply_is_pure(
    o: Oracle,
    rule: Json,
    data: Json,
    first: Result<PartialApplyOutcome, String>,
    second: Result<PartialApplyOutcome, String>,
)
    requires
        partly_applied_view(first) == partly_applied(o, rule, data),
        partly_applied_view(second) == partly_applied(o, rule, data),
    ensures
        partly_applied_view(first) == partly_applied_view(second),
{
}

} // verus!

//! `in`: whether a value is an item of an array, or a text a part of
//! another.

use crate::kernel::{answers, is_kernel, Oracle, Query, Reply};
use crate::logic::{is_strict_equal, strict_equal};
use crate::text::{chars_of, occurs, occurs_in};
use crate::value::{array_view, jsons_of, Json, Value};
use vstd::prelude::*;

verus! {

/// Whether one of the items is strictly equal to `v`.
pub open spec fn holds_equal(o: Oracle, items: Seq<Json>, v: Json) -> bool {
    exists|i: int| 0 <= i < items.len() && strict_equal(o, v, #[trigger] items[i])
}

/// Whether the first operand is found in the second: as an item that is
/// strictly equal to it where the second is an array, as a run of
/// characters where both are strings. In every other case it is not.
pub open spec fn value(o: Oracle, vals: Seq<Json>) -> Json {
    if vals.len() < 2 {
        Json::Bool(false)
    } else {
        match vals[1] {
            Json::Array(items) => Json::Bool(holds_equal(o, items, vals[0])),
            Json::String(hay) => match vals[0] {
                Json::String(needle) => Json::Bool(occurs_in(needle, hay)),
                _ => Json::Bool(false),
            },
            _ => Json::Bool(false),
        }
    }
}

/// Evaluates the operator on the values of its operands.
#[verifier::loop_isolation(false)]
pub fn compute<K: Fn(Query) -> Reply>(args: &[Value], k: &K) -> (r: Value)
    requires
        is_kernel(*k),
    ensures
        r@ == value(answers(*k), jsons_of(args@)),
{
    if args.len() < 2 {
        return Value::Bool(false);
    }
    match &args[1] {
        Value::Array(items) => {
            proof {
                array_view(*items);
            }
            let ghost all = jsons_of(items@);
            let mut i: usize = 0;
            while i < items.len()
                invariant
                    i <= items.len(),
                    forall|j: int| 0 <= j < i ==> !strict_equal(answers(*k), args@[0]@, #[trigger] all[j]),
                decreases items.len() - i,
            {
                if is_strict_equal(&args[0], &items[i], k) {
                    proof {
                        let vals = jsons_of(args@);
                        assert(vals[1] == Json::Array(all));
                        assert(0 <= i < all.len() && strict_equal(
                            answers(*k),
                            vals[0],
                            all[i as int],
                        ));
                        assert(holds_equal(answers(*k), all, vals[0]));
                    }
                    return Value::Bool(true);
                }
                i = i + 1;
            }
            Value::Bool(false)
        },
        Value::String(hay) => match &args[0] {
            Value::String(needle) => {
                let n = chars_of(needle.as_str());
                let h = chars_of(hay.as_str());
                Value::Bool(occurs(n.as_slice(), h.as_slice()))
            },
            _ => Value::Bool(false),
        },
        _ => Value::Bool(false),
    }
}

} // verus!

//! `cat`: the operands as text, one after another.

use crate::kernel::{answers, is_kernel, Oracle, Query, Reply};
use crate::logic::{coerce_to_str, to_text};
use crate::text::push_text;
use crate::value::{jsons_of, Json, Value};
use vstd::prelude::*;

verus! {

/// The texts of the operands, one after another.
pub open spec fn chained(o: Oracle, vals: Seq<Json>) -> Seq<char>
    decreases vals.len(),
{
    if vals.len() == 0 {
        Seq::<char>::empty()
    } else {
        chained(o, vals.drop_last()) + to_text(o, vals.last())
    }
}

/// The string that holds the texts of all operands.
pub open spec fn value(o: Oracle, vals: Seq<Json>) -> Json {
    Json::String(chained(o, vals))
}

/// Evaluates the operator on the values of its operands.
pub fn compute<K: Fn(Query) -> Reply>(args: &[Value], k: &K) -> (r: Value)
    requires
        is_kernel(*k),
    ensures
        r@ == value(answers(*k), jsons_of(args@)),
{
    let ghost vals = jsons_of(args@);
    let mut out = String::new();
    let mut i: usize = 0;
    while i < args.len()
        invariant
            i <= args.len(),
            is_kernel(*k),
            vals == jsons_of(args@),
            out@ == chained(answers(*k), vals.take(i as int)),
        decreases args.len() - i,
    {
        proof {
            assert(vals.take(i + 1).drop_last() =~= vals.take(i as int));
        }
        let piece = coerce_to_str(&args[i], k);
        push_text(&mut out, piece.as_str());
        i = i + 1;
    }
    assert(vals.take(args.len() as int) =~= vals);
    Value::String(out)
}

} // verus!

//! `merge`: one array out of the operands.

use crate::value::{array_view, jsons_of, Json, Value};
use vstd::prelude::*;

verus! {

/// What an operand brings to the merged array: its items where it is an
/// array, else itself.
pub open spec fn share(v: Json) -> Seq<Json> {
    match v {
        Json::Array(items) => items,
        _ => seq![v],
    }
}

/// The shares of the operands, one after another.
pub open spec fn merged(vals: Seq<Json>) -> Seq<Json>
    decreases vals.len(),
{
    if vals.len() == 0 {
        Seq::<Json>::empty()
    } else {
        merged(vals.drop_last()) + share(vals.last())
    }
}

/// The array of the items of all operands that are arrays and of the
/// other operands themselves, in order.
pub open spec fn value(vals: Seq<Json>) -> Json {
    Json::Array(merged(vals))
}

pub fn compute(args: &[Value]) -> (r: Value)
    ensures
        r@ == value(jsons_of(args@)),
{
    let ghost vals = jsons_of(args@);
    let mut out: Vec<Value> = Vec::new();
    let mut i: usize = 0;
    while i < args.len()
        invariant
            i <= args.len(),
            vals == jsons_of(args@),
            jsons_of(out@) == merged(vals.take(i as int)),
        decreases args.len() - i,
    {
        proof {
            assert(vals.take(i + 1).drop_last() =~= vals.take(i as int));
        }
        let ghost before = jsons_of(out@);
        match &args[i] {
            Value::Array(items) => {
                proof {
                    array_view(*items);
                }
                let mut j: usize = 0;
                while j < items.len()
                    invariant
                        j <= items.len(),
                        jsons_of(out@) == before + jsons_of(items@).take(j as int),
                    decreases items.len() - j,
                {
                    let ghost previous = jsons_of(out@);
                    out.push(items[j].clone());
                    proof {
                        assert(jsons_of(out@) =~= previous.push(items@[j as int]@));
                        assert(jsons_of(items@).take(j + 1) =~= jsons_of(items@).take(j as int).push(
                            items@[j as int]@,
                        ));
                        assert(jsons_of(out@) =~= before + jsons_of(items@).take(j + 1));
                    }
                    j = j + 1;
                }
                assert(jsons_of(items@).take(items.len() as int) =~= jsons_of(items@));
            },
            other => {
                out.push(other.clone());
                proof {
                    assert(jsons_of(out@) =~= before.push(args@[i as int]@));
                    assert(before.push(args@[i as int]@) =~= before + seq![args@[i as int]@]);
                }
            },
        }
        i = i + 1;
    }
    assert(vals.take(args.len() as int) =~= vals);
    proof {
        array_view(out);
    }
    Value::Array(out)
}

} // verus!

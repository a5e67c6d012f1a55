//! The data that a rule is evaluated against, and the lookup of a
//! variable in it.

use crate::text::{chars_of, split, split_at_any, texts_of, unsigned_value, unsigned_within};
use crate::value::{array_view, jsons_of, member, object_view, Json, Value};
use vstd::prelude::*;

verus! {

/// What one segment of a path finds in `current`: the member of an object
/// with that key, or the item of an array at that index. In any other
/// case there is nothing to find.
pub open spec fn step(current: Json, segment: Seq<char>) -> Option<Json> {
    match current {
        Json::Object(members) => member(members, segment),
        Json::Array(items) => match unsigned_value(segment) {
            Some(i) if i < items.len() => Some(items[i as int]),
            _ => None,
        },
        _ => None,
    }
}

/// What the segments find one after another, starting at `current`.
pub open spec fn walk(current: Json, segments: Seq<Seq<char>>) -> Option<Json>
    decreases segments.len(),
{
    if segments.len() == 0 {
        Some(current)
    } else {
        match step(current, segments[0]) {
            Some(next) => walk(next, segments.drop_first()),
            None => None,
        }
    }
}

/// The value of the variable `path` in `data`, where it is present: the
/// path is split at every `.`, and each segment is one step into the data.
pub open spec fn resolve(data: Json, path: Seq<char>) -> Option<Json> {
    walk(data, split(path, seq!['.']))
}

/// The data of one evaluation.
pub struct Data<'a> {
    value: &'a Value,
}

impl<'a> View for Data<'a> {
    type V = Json;

    closed spec fn view(&self) -> Json {
        self.value@
    }
}

impl<'a> Data<'a> {
    /// The data that holds `value`.
    pub fn from_json(value: &'a Value) -> (data: Data<'a>)
        ensures
            data@ == value@,
    {
        Data { value }
    }

    /// Data that holds nothing: `null`.
    pub fn empty() -> (data: Data<'static>)
        ensures
            data@ == Json::Null,
    {
        Data { value: &Value::Null }
    }

    /// The value that the data holds.
    pub fn get_plain(&self) -> (value: &'a Value)
        ensures
            value@ == self@,
    {
        self.value
    }

    /// The value of the variable `path`, or `None` where it is absent.
    pub fn get_value(&self, path: &str) -> (found: Option<&'a Value>)
        ensures
            match found {
                Some(v) => resolve(self@, path@) == Some(v@),
                None => resolve(self@, path@) is None,
            },
    {
        let dot: [char; 1] = ['.'];
        assert(dot@ =~= seq!['.']);
        let segments = split_at_any(path, dot.as_slice());
        let ghost all = texts_of(segments@);
        let mut current: &'a Value = self.value;
        let mut i: usize = 0;
        assert(all.skip(0) =~= all);
        while i < segments.len()
            invariant
                i <= segments.len(),
                all == texts_of(segments@),
                all == split(path@, seq!['.']),
                walk(self@, all) == walk(current@, all.skip(i as int)),
            decreases segments.len() - i,
        {
            proof {
                assert(all.skip(i as int).drop_first() =~= all.skip(i + 1));
                assert(all.skip(i as int)[0] == segments@[i as int]@);
            }
            match Data::take_step(current, segments[i].as_str()) {
                Some(next) => {
                    current = next;
                },
                None => {
                    return None;
                },
            }
            i = i + 1;
        }
        Some(current)
    }

    /// One step into `current`.
    fn take_step(current: &'a Value, segment: &str) -> (found: Option<&'a Value>)
        ensures
            match found {
                Some(v) => step(current@, segment@) == Some(v@),
                None => step(current@, segment@) is None,
            },
    {
        match current {
            Value::Object(members) => {
                proof {
                    object_view(*members);
                }
                Value::find(members, segment)
            },
            Value::Array(items) => {
                proof {
                    array_view(*items);
                }
                let cs = chars_of(segment);
                match unsigned_within(cs.as_slice(), usize::MAX as u64) {
                    Some(n) => {
                        let index: usize = n as usize;
                        if index < items.len() {
                            Some(&items[index])
                        } else {
                            None
                        }
                    },
                    None => {
                        assert(items@.len() == items.len() && items.len() <= usize::MAX);
                        assert(jsons_of(items@).len() <= usize::MAX as u64);
                        None
                    },
                }
            },
            _ => None,
        }
    }
}

} // verus!

//! The JSON values that rules and data are made of, and their
//! mathematical model.

use vstd::prelude::*;

verus! {

/// A JSON number. Integers are held exactly. A `Float` holds the bit
/// pattern of an IEEE 754 double: this crate never computes on doubles
/// itself, it only compares their bit patterns and hands them to the
/// numeric kernel.
#[derive(Clone, Copy, Debug, PartialEq)]
pub enum Number {
    PosInt(u64),
    NegInt(i64),
    Float(u64),
}

/// The model of a JSON value: what contracts speak of.
pub enum Json {
    Null,
    Bool(bool),
    Number(Number),
    String(Seq<char>),
    Array(Seq<Json>),
    Object(Seq<(Seq<char>, Json)>),
}

/// A JSON value. An object is a list of members; where a key occurs more
/// than once, the first member with that key is the one that is found.
#[derive(Debug, PartialEq)]
pub enum Value {
    Null,
    Bool(bool),
    Number(Number),
    String(String),
    Array(Vec<Value>),
    Object(Vec<(String, Value)>),
}

/// The model of `v`.
pub open spec fn json_of(v: Value) -> Json
    decreases v,
{
    match v {
        Value::Null => Json::Null,
        Value::Bool(b) => Json::Bool(b),
        Value::Number(n) => Json::Number(n),
        Value::String(s) => Json::String(s@),
        Value::Array(a) => Json::Array(
            Seq::new(
                a@.len(),
                |i: int|
                    if 0 <= i < a@.len() {
                        json_of(a@[i])
                    } else {
                        Json::Null
                    },
            ),
        ),
        Value::Object(o) => Json::Object(
            Seq::new(
                o@.len(),
                |i: int|
                    if 0 <= i < o@.len() {
                        (o@[i].0@, json_of(o@[i].1))
                    } else {
                        (Seq::empty(), Json::Null)
                    },
            ),
        ),
    }
}

impl View for Value {
    type V = Json;

    open spec fn view(&self) -> Json {
        json_of(*self)
    }
}

/// The models of a list of values, in order.
pub open spec fn jsons_of(vs: Seq<Value>) -> Seq<Json> {
    Seq::new(vs.len(), |i: int| vs[i]@)
}

/// The view of an array is the list of its items' views.
pub proof fn array_view(a: Vec<Value>)
    ensures
        Value::Array(a)@ == Json::Array(jsons_of(a@)),
{
    assert(Value::Array(a)@->Array_0 =~= jsons_of(a@));
}

/// The models of a list of members, in order.
pub open spec fn members_of(ms: Seq<(String, Value)>) -> Seq<(Seq<char>, Json)> {
    Seq::new(ms.len(), |i: int| (ms[i].0@, ms[i].1@))
}

/// The view of an object is the list of its members' views.
pub proof fn object_view(o: Vec<(String, Value)>)
    ensures
        Value::Object(o)@ == Json::Object(members_of(o@)),
{
    assert(Value::Object(o)@->Object_0 =~= members_of(o@));
}

/// The value of the first member of `members` whose key is `key`.
pub open spec fn member(members: Seq<(Seq<char>, Json)>, key: Seq<char>) -> Option<Json>
    decreases members.len(),
{
    if members.len() == 0 {
        None
    } else if members[0].0 == key {
        Some(members[0].1)
    } else {
        member(members.drop_first(), key)
    }
}

/// Whether the member at position `i` is the first with its key, the
/// one that is found under that key.
pub open spec fn leads(members: Seq<(Seq<char>, Json)>, i: int) -> bool {
    forall|m: int| 0 <= m < i ==> (#[trigger] members[m]).0 != members[i].0
}

/// Where a key finds a value, the value is that of the first member
/// with the key.
pub proof fn found_member_leads(members: Seq<(Seq<char>, Json)>, key: Seq<char>)
    ensures
        match member(members, key) {
            Some(v) => exists|i: int|
                0 <= i < members.len() && leads(members, i) && (#[trigger] members[i]) == (key, v),
            None => forall|i: int| 0 <= i < members.len() ==> (#[trigger] members[i]).0 != key,
        },
    decreases members.len(),
{
    if members.len() > 0 {
        if members[0].0 == key {
            assert(leads(members, 0) && members[0] == (key, members[0].1));
        } else {
            let rest = members.drop_first();
            found_member_leads(rest, key);
            match member(rest, key) {
                Some(v) => {
                    let i = choose|i: int|
                        0 <= i < rest.len() && leads(rest, i) && (#[trigger] rest[i]) == (key, v);
                    assert(members[i + 1] == rest[i]);
                    assert forall|m: int| 0 <= m < i + 1 implies (#[trigger] members[m]).0
                        != members[i + 1].0 by {
                        if m > 0 {
                            assert(members[m] == rest[m - 1]);
                        }
                    }
                    assert(leads(members, i + 1));
                },
                None => {
                    assert forall|i: int| 0 <= i < members.len() implies (#[trigger] members[i]).0
                        != key by {
                        if i > 0 {
                            assert(members[i] == rest[i - 1]);
                        }
                    }
                },
            }
        }
    }
}

/// The member that leads under a key is the one that the key finds.
pub proof fn leading_member_is_found(members: Seq<(Seq<char>, Json)>, i: int)
    requires
        0 <= i < members.len(),
        leads(members, i),
    ensures
        member(members, members[i].0) == Some(members[i].1),
{
    found_member_leads(members, members[i].0);
    match member(members, members[i].0) {
        Some(v) => {
            let j = choose|j: int|
                0 <= j < members.len() && leads(members, j) && (#[trigger] members[j]) == (
                    members[i].0,
                    v,
                );
            if j < i {
                assert(members[j].0 != members[i].0);
            }
            if i < j {
                assert(members[i].0 != members[j].0);
            }
        },
        None => {
            assert(members[i].0 != members[i].0);
        },
    }
}

/// The integer that `n` holds, where it holds one.
pub open spec fn integer_of(n: Number) -> Option<int> {
    match n {
        Number::PosInt(u) => Some(u as int),
        Number::NegInt(i) => Some(i as int),
        Number::Float(_) => None,
    }
}

impl Value {
    /// Whether the member at position `i` is the first with its key.
    pub fn is_first(members: &Vec<(String, Value)>, i: usize) -> (r: bool)
        requires
            i < members.len(),
        ensures
            r == leads(members_of(members@), i as int),
    {
        let ghost ms = members_of(members@);
        let mut m: usize = 0;
        while m < i
            invariant
                m <= i < members.len(),
                ms == members_of(members@),
                forall|n: int| 0 <= n < m ==> (#[trigger] ms[n]).0 != ms[i as int].0,
            decreases i - m,
        {
            if crate::text::same_text(members[m].0.as_str(), members[i].0.as_str()) {
                assert(ms[m as int].0 == ms[i as int].0);
                return false;
            }
            m = m + 1;
        }
        true
    }

    /// The first member of an object's list that has the key `key`.
    pub fn find<'a>(members: &'a Vec<(String, Value)>, key: &str) -> (r: Option<&'a Value>)
        ensures
            match r {
                Some(v) => member(members_of(members@), key@) == Some(v@),
                None => member(members_of(members@), key@) is None,
            },
    {
        let ghost ms = members_of(members@);
        let mut i: usize = 0;
        assert(ms.skip(0) =~= ms);
        while i < members.len()
            invariant
                i <= members.len(),
                ms == members_of(members@),
                member(ms, key@) == member(ms.skip(i as int), key@),
            decreases members.len() - i,
        {
            proof {
                assert(ms.skip(i as int).drop_first() =~= ms.skip(i + 1));
            }
            if crate::text::same_text(members[i].0.as_str(), key) {
                return Some(&members[i].1);
            }
            i = i + 1;
        }
        None
    }
}

impl Number {
    /// Whether the two numbers are held in the same way and hold the same.
    pub fn same(&self, other: &Number) -> (r: bool)
        ensures
            r == (*self == *other),
    {
        match (self, other) {
            (Number::PosInt(a), Number::PosInt(b)) => *a == *b,
            (Number::NegInt(a), Number::NegInt(b)) => *a == *b,
            (Number::Float(a), Number::Float(b)) => *a == *b,
            _ => false,
        }
    }
}

impl Value {
    /// Whether the two values are the same: of one kind, with the same
    /// content in the same order.
    #[verifier::loop_isolation(false)]
    pub fn same(&self, other: &Value) -> (r: bool)
        ensures
            r == (self@ == other@),
        decreases self,
    {
        match (self, other) {
            (Value::Null, Value::Null) => true,
            (Value::Bool(a), Value::Bool(b)) => *a == *b,
            (Value::Number(a), Value::Number(b)) => a.same(b),
            (Value::String(a), Value::String(b)) => crate::text::same_text(a.as_str(), b.as_str()),
            (Value::Array(a), Value::Array(b)) => {
                proof {
                    array_view(*a);
                    array_view(*b);
                }
                if a.len() != b.len() {
                    assert(jsons_of(a@).len() != jsons_of(b@).len());
                    return false;
                }
                let mut i: usize = 0;
                while i < a.len()
                    invariant
                        i <= a.len(),
                        forall|j: int| 0 <= j < i ==> a@[j]@ == b@[j]@,
                    decreases a.len() - i,
                {
                    if !a[i].same(&b[i]) {
                        assert(jsons_of(a@)[i as int] != jsons_of(b@)[i as int]);
                        return false;
                    }
                    i = i + 1;
                }
                assert(jsons_of(a@) =~= jsons_of(b@));
                true
            },
            (Value::Object(a), Value::Object(b)) => {
                proof {
                    object_view(*a);
                    object_view(*b);
                }
                if a.len() != b.len() {
                    assert(members_of(a@).len() != members_of(b@).len());
                    return false;
                }
                let mut i: usize = 0;
                while i < a.len()
                    invariant
                        i <= a.len(),
                        forall|j: int|
                            0 <= j < i ==> a@[j].0@ == b@[j].0@ && a@[j].1@ == b@[j].1@,
                    decreases a.len() - i,
                {
                    if !crate::text::same_text(a[i].0.as_str(), b[i].0.as_str()) || !a[i].1.same(
                        &b[i].1,
                    ) {
                        assert(members_of(a@)[i as int] != members_of(b@)[i as int]);
                        return false;
                    }
                    i = i + 1;
                }
                assert(members_of(a@) =~= members_of(b@));
                true
            },
            _ => false,
        }
    }
}

impl Clone for Value {
    #[verifier::loop_isolation(false)]
    fn clone(&self) -> (r: Self)
        ensures
            r@ == self@,
        decreases self,
    {
        match self {
            Value::Null => Value::Null,
            Value::Bool(b) => Value::Bool(*b),
            Value::Number(n) => Value::Number(*n),
            Value::String(s) => Value::String(s.clone()),
            Value::Array(a) => {
                let mut out: Vec<Value> = Vec::new();
                let mut i: usize = 0;
                while i < a.len()
                    invariant
                        i <= a.len(),
                        out@.len() == i,
                        forall|j: int| 0 <= j < i ==> out@[j]@ == a@[j]@,
                    decreases a.len() - i,
                {
                    out.push(a[i].clone());
                    i = i + 1;
                }
                assert(Value::Array(out)@->Array_0 =~= self@->Array_0);
                Value::Array(out)
            },
            Value::Object(o) => {
                let mut out: Vec<(String, Value)> = Vec::new();
                let mut i: usize = 0;
                while i < o.len()
                    invariant
                        i <= o.len(),
                        out@.len() == i,
                        forall|j: int|
                            0 <= j < i ==> out@[j].0@ == o@[j].0@ && out@[j].1@ == o@[j].1@,
                    decreases o.len() - i,
                {
                    out.push((o[i].0.clone(), o[i].1.clone()));
                    i = i + 1;
                }
                assert(Value::Object(out)@->Object_0 =~= self@->Object_0);
                Value::Object(out)
            },
        }
    }
}

} // verus!

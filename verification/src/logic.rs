//! Truthiness, coercion, equality and ordering of JSON values.

use crate::kernel::{
    answers, ask_arith, ask_double, ask_parse, ask_show, bits_in, double_of, finite, is_finite,
    is_kernel, magnitude, rank, rank_of, text_in, ArithOp, Oracle, Query, Question, Reply,
};
use crate::text::{
    chars_of, comes_before, decimal, join, precedes, push_char, push_decimal, push_text,
    same_text, trim, trimmed,
};
use crate::value::{
    array_view, integer_of, jsons_of, leads, member, members_of, object_view, Json, Number,
    Value,
};
use vstd::prelude::*;

verus! {

/// Whether a number is zero.
pub open spec fn is_zero(n: Number) -> bool {
    match n {
        Number::PosInt(u) => u == 0,
        Number::NegInt(i) => i == 0,
        Number::Float(b) => magnitude(b) == 0,
    }
}

/// Whether a value counts as true: everything does but `null`, `false`,
/// zero, the empty string and the empty array.
pub open spec fn truthy(j: Json) -> bool {
    match j {
        Json::Null => false,
        Json::Bool(b) => b,
        Json::Number(n) => !is_zero(n),
        Json::String(s) => s.len() > 0,
        Json::Array(a) => a.len() > 0,
        Json::Object(_) => true,
    }
}

/// How a number is written: an integer in decimal, a double as the kernel
/// writes it.
pub open spec fn number_text(o: Oracle, n: Number) -> Seq<char> {
    match n {
        Number::PosInt(u) => decimal(u as nat),
        Number::NegInt(i) => if i < 0 {
            seq!['-'] + decimal((-i) as nat)
        } else {
            decimal(i as nat)
        },
        Number::Float(b) => text_in(o(Question::Show(b))),
    }
}

/// A value as text: a string is itself, an array is its items as text
/// with commas between them.
pub open spec fn to_text(o: Oracle, j: Json) -> Seq<char>
    decreases j, 1int,
{
    match j {
        Json::Null => "null"@,
        Json::Bool(b) => if b {
            "true"@
        } else {
            "false"@
        },
        Json::Number(n) => number_text(o, n),
        Json::String(s) => s,
        Json::Array(items) => join(to_texts(o, items), seq![',']),
        Json::Object(_) => "[object Object]"@,
    }
}

/// Each of the values as text.
pub open spec fn to_texts(o: Oracle, items: Seq<Json>) -> Seq<Seq<char>>
    decreases items, 0int,
{
    Seq::new(
        items.len(),
        |i: int|
            if 0 <= i < items.len() {
                to_text(o, items[i])
            } else {
                Seq::<char>::empty()
            },
    )
}

/// The number that a text writes, white space at its start and end
/// aside. Nothing but white space writes 0. Any other text writes what
/// the kernel says, where that is a finite double.
pub open spec fn parsed(o: Oracle, s: Seq<char>) -> Option<Number> {
    let written = trimmed(s);
    if written.len() == 0 {
        Some(Number::PosInt(0))
    } else {
        match bits_in(o(Question::Parse(written))) {
            Some(b) if finite(b) => Some(Number::Float(b)),
            _ => None,
        }
    }
}

/// A value as a number, where it has one: `null` and `false` are 0, `true`
/// is 1, a string is the number it writes, an array is the number that
/// its text writes.
pub open spec fn to_number(o: Oracle, j: Json) -> Option<Number> {
    match j {
        Json::Null => Some(Number::PosInt(0)),
        Json::Bool(b) => Some(Number::PosInt(if b { 1 } else { 0 })),
        Json::Number(n) => Some(n),
        Json::String(s) => parsed(o, s),
        Json::Array(_) => parsed(o, to_text(o, j)),
        Json::Object(_) => None,
    }
}

/// Whether two numbers have the same value. Two integers are compared
/// exactly; otherwise both are compared as doubles.
pub open spec fn number_eq(o: Oracle, x: Number, y: Number) -> bool {
    match (integer_of(x), integer_of(y)) {
        (Some(a), Some(b)) => a == b,
        _ => match (double_of(o, x), double_of(o, y)) {
            (Some(a), Some(b)) => finite(a) && finite(b) && rank(a) == rank(b),
            _ => false,
        },
    }
}

/// Whether `x` is less than `y`.
pub open spec fn number_lt(o: Oracle, x: Number, y: Number) -> bool {
    match (integer_of(x), integer_of(y)) {
        (Some(a), Some(b)) => a < b,
        _ => match (double_of(o, x), double_of(o, y)) {
            (Some(a), Some(b)) => finite(a) && finite(b) && rank(a) < rank(b),
            _ => false,
        },
    }
}

/// Whether `x` is less than or equal to `y`.
pub open spec fn number_le(o: Oracle, x: Number, y: Number) -> bool {
    number_lt(o, x, y) || number_eq(o, x, y)
}

/// Equality without coercion: the two values are of the same kind and
/// equal in it. Arrays are equal item by item. Objects are equal where
/// they have the same keys and each key finds equal values in both,
/// whatever the order of the members.
pub open spec fn strict_equal(o: Oracle, a: Json, b: Json) -> bool
    decreases a,
{
    match (a, b) {
        (Json::Null, Json::Null) => true,
        (Json::Bool(x), Json::Bool(y)) => x == y,
        (Json::Number(x), Json::Number(y)) => number_eq(o, x, y),
        (Json::String(x), Json::String(y)) => x == y,
        (Json::Array(xs), Json::Array(ys)) => {
            &&& xs.len() == ys.len()
            &&& forall|i: int| 0 <= i < xs.len() ==> strict_equal(o, #[trigger] xs[i], ys[i])
        },
        (Json::Object(xs), Json::Object(ys)) => {
            &&& forall|i: int|
                0 <= i < xs.len() && leads(xs, i) ==> match member(ys, (#[trigger] xs[i]).0) {
                    Some(v) => strict_equal(o, xs[i].1, v),
                    None => false,
                }
            &&& forall|j: int| 0 <= j < ys.len() ==> member(xs, (#[trigger] ys[j]).0) is Some
        },
        _ => false,
    }
}

/// Equality with coercion. Two values of one kind are equal as
/// `strict_equal` says. `null` equals nothing else. A boolean stands for
/// 1 or 0. A number and a string are compared as numbers; an array or an
/// object is compared with a string as text and with a number as a
/// number.
pub open spec fn loose_equal(o: Oracle, a: Json, b: Json) -> bool {
    match (a, b) {
        (Json::Null, Json::Null) => true,
        (Json::Null, _) | (_, Json::Null) => false,
        (Json::Bool(x), Json::Bool(y)) => x == y,
        (Json::Bool(_), _) | (_, Json::Bool(_)) => numerically_equal(o, a, b),
        (Json::Number(_), Json::Number(_)) => strict_equal(o, a, b),
        (Json::Number(_), _) | (_, Json::Number(_)) => numerically_equal(o, a, b),
        (Json::String(x), Json::String(y)) => x == y,
        (Json::String(x), _) => to_text(o, b) == x,
        (_, Json::String(y)) => to_text(o, a) == y,
        _ => strict_equal(o, a, b),
    }
}

/// Whether both values have a number and the two numbers are equal.
pub open spec fn numerically_equal(o: Oracle, a: Json, b: Json) -> bool {
    match (to_number(o, a), to_number(o, b)) {
        (Some(x), Some(y)) => number_eq(o, x, y),
        _ => false,
    }
}

/// Whether `a` is less than `b`: as numbers where both have one, else as
/// texts.
pub open spec fn less(o: Oracle, a: Json, b: Json) -> bool {
    match (to_number(o, a), to_number(o, b)) {
        (Some(x), Some(y)) => number_lt(o, x, y),
        _ => precedes(to_text(o, a), to_text(o, b)),
    }
}

/// Whether `a` is less than or equal to `b`: as numbers where both have
/// one, else as texts.
pub open spec fn less_equal(o: Oracle, a: Json, b: Json) -> bool {
    match (to_number(o, a), to_number(o, b)) {
        (Some(x), Some(y)) => number_le(o, x, y),
        _ => precedes(to_text(o, a), to_text(o, b)) || to_text(o, a) == to_text(o, b),
    }
}

/// Whether `b` lies between `a` and `c`, the bounds included.
pub open spec fn between(o: Oracle, a: Json, b: Json, c: Json) -> bool {
    less_equal(o, a, b) && less_equal(o, b, c)
}

/// A value as the bits of a double, where it has a number.
pub open spec fn to_double(o: Oracle, j: Json) -> Option<u64> {
    match to_number(o, j) {
        Some(n) => double_of(o, n),
        None => None,
    }
}

/// The result of an operation on two doubles, by the kernel.
pub open spec fn combined(o: Oracle, op: ArithOp, a: Option<u64>, b: Option<u64>) -> Option<u64> {
    match (a, b) {
        (Some(x), Some(y)) => bits_in(o(Question::Arith(op, x, y))),
        _ => None,
    }
}

/// The number with these bits where they are the bits of a finite
/// double, else `null`.
pub open spec fn number_or_null(bits: Option<u64>) -> Json {
    match bits {
        Some(b) if finite(b) => Json::Number(Number::Float(b)),
        _ => Json::Null,
    }
}

/// Whether a value counts as true.
pub fn is_truthy(value: &Value) -> (r: bool)
    ensures
        r == truthy(value@),
{
    match value {
        Value::Null => false,
        Value::Bool(b) => *b,
        Value::Number(n) => match n {
            Number::PosInt(u) => *u != 0,
            Number::NegInt(i) => *i != 0,
            Number::Float(b) => !(*b == 0 || *b == 0x8000_0000_0000_0000),
        },
        Value::String(s) => !s.as_str().is_empty(),
        Value::Array(a) => {
            proof {
                array_view(*a);
            }
            a.len() > 0
        },
        Value::Object(_) => true,
    }
}

/// Writes a number.
pub fn number_to_str<K: Fn(Query) -> Reply>(n: Number, k: &K) -> (r: String)
    requires
        is_kernel(*k),
    ensures
        r@ == number_text(answers(*k), n),
{
    match n {
        Number::PosInt(u) => {
            let mut out = String::new();
            push_decimal(&mut out, u);
            assert(Seq::<char>::empty() + decimal(u as nat) =~= decimal(u as nat));
            out
        },
        Number::NegInt(i) => {
            let mut out = String::new();
            if i < 0 {
                push_char(&mut out, '-');
                let size: u64 = if i == i64::MIN {
                    0x8000_0000_0000_0000
                } else {
                    (-i) as u64
                };
                push_decimal(&mut out, size);
                assert(Seq::<char>::empty().push('-') =~= seq!['-']);
            } else {
                push_decimal(&mut out, i as u64);
                assert(Seq::<char>::empty() + decimal(i as nat) =~= decimal(i as nat));
            }
            out
        },
        Number::Float(b) => ask_show(k, b),
    }
}

/// A value as text.
#[verifier::loop_isolation(false)]
pub fn coerce_to_str<K: Fn(Query) -> Reply>(value: &Value, k: &K) -> (r: String)
    requires
        is_kernel(*k),
    ensures
        r@ == to_text(answers(*k), value@),
    decreases value,
{
    match value {
        Value::Null => "null".to_owned(),
        Value::Bool(b) => if *b {
            "true".to_owned()
        } else {
            "false".to_owned()
        },
        Value::Number(n) => number_to_str(*n, k),
        Value::String(s) => s.clone(),
        Value::Array(a) => {
            let ghost o = answers(*k);
            let ghost items = jsons_of(a@);
            let ghost texts = to_texts(o, items);
            proof {
                array_view(*a);
            }
            let mut out = String::new();
            let mut i: usize = 0;
            while i < a.len()
                invariant
                    i <= a.len(),
                    out@ == join(texts.take(i as int), seq![',']),
                decreases a.len() - i,
            {
                let piece = coerce_to_str(&a[i], k);
                proof {
                    let now = texts.take(i + 1);
                    assert(now.drop_last() =~= texts.take(i as int));
                    assert(now.last() == piece@);
                    if i > 0 {
                        assert(out@ + seq![','] =~= out@.push(','));
                    }
                }
                if i > 0 {
                    push_char(&mut out, ',');
                }
                push_text(&mut out, piece.as_str());
                i = i + 1;
            }
            assert(texts.take(a.len() as int) =~= texts);
            out
        },
        Value::Object(_) => "[object Object]".to_owned(),
    }
}

/// The number that a text writes.
pub fn parse_number<K: Fn(Query) -> Reply>(s: &str, k: &K) -> (r: Option<Number>)
    requires
        is_kernel(*k),
    ensures
        r == parsed(answers(*k), s@),
{
    let written = trim(s);
    if written.as_str().is_empty() {
        return Some(Number::PosInt(0));
    }
    match ask_parse(k, written.as_str()) {
        Some(b) => if is_finite(b) {
            Some(Number::Float(b))
        } else {
            None
        },
        None => None,
    }
}

/// A value as a number, where it has one.
pub fn coerce_to_number<K: Fn(Query) -> Reply>(value: &Value, k: &K) -> (r: Option<Number>)
    requires
        is_kernel(*k),
    ensures
        r == to_number(answers(*k), value@),
{
    match value {
        Value::Null => Some(Number::PosInt(0)),
        Value::Bool(b) => Some(Number::PosInt(if *b { 1 } else { 0 })),
        Value::Number(n) => Some(*n),
        Value::String(s) => parse_number(s.as_str(), k),
        Value::Array(_) => {
            let text = coerce_to_str(value, k);
            parse_number(text.as_str(), k)
        },
        Value::Object(_) => None,
    }
}

/// The integer that a number holds, where it holds one.
fn integer<'a>(n: &'a Number) -> (r: Option<i128>)
    ensures
        match r {
            Some(v) => integer_of(*n) == Some(v as int),
            None => integer_of(*n) is None,
        },
{
    match n {
        Number::PosInt(u) => Some(*u as i128),
        Number::NegInt(i) => Some(*i as i128),
        Number::Float(_) => None,
    }
}

/// The ranks of two numbers as doubles, where both are finite doubles.
fn ranks<K: Fn(Query) -> Reply>(x: Number, y: Number, k: &K) -> (r: Option<(i128, i128)>)
    requires
        is_kernel(*k),
    ensures
        r == match (double_of(answers(*k), x), double_of(answers(*k), y)) {
            (Some(a), Some(b)) if finite(a) && finite(b) => Some((rank(a) as i128, rank(b) as i128)),
            _ => None,
        },
{
    match (ask_double(k, x), ask_double(k, y)) {
        (Some(a), Some(b)) => if is_finite(a) && is_finite(b) {
            Some((rank_of(a), rank_of(b)))
        } else {
            None
        },
        _ => None,
    }
}

/// Whether two numbers have the same value.
pub fn equal_numbers<K: Fn(Query) -> Reply>(x: Number, y: Number, k: &K) -> (r: bool)
    requires
        is_kernel(*k),
    ensures
        r == number_eq(answers(*k), x, y),
{
    match (integer(&x), integer(&y)) {
        (Some(a), Some(b)) => a == b,
        _ => match ranks(x, y, k) {
            Some((a, b)) => a == b,
            None => false,
        },
    }
}

/// Whether `x` is less than `y`.
pub fn less_numbers<K: Fn(Query) -> Reply>(x: Number, y: Number, k: &K) -> (r: bool)
    requires
        is_kernel(*k),
    ensures
        r == number_lt(answers(*k), x, y),
{
    match (integer(&x), integer(&y)) {
        (Some(a), Some(b)) => a < b,
        _ => match ranks(x, y, k) {
            Some((a, b)) => a < b,
            None => false,
        },
    }
}

/// Equality without coercion.
#[verifier::loop_isolation(false)]
pub fn is_strict_equal<K: Fn(Query) -> Reply>(a: &Value, b: &Value, k: &K) -> (r: bool)
    requires
        is_kernel(*k),
    ensures
        r == strict_equal(answers(*k), a@, b@),
    decreases a,
{
    let ghost o = answers(*k);
    match (a, b) {
        (Value::Null, Value::Null) => true,
        (Value::Bool(x), Value::Bool(y)) => *x == *y,
        (Value::Number(x), Value::Number(y)) => equal_numbers(*x, *y, k),
        (Value::String(x), Value::String(y)) => same_text(x.as_str(), y.as_str()),
        (Value::Array(x), Value::Array(y)) => {
            let ghost xs = jsons_of(x@);
            let ghost ys = jsons_of(y@);
            proof {
                array_view(*x);
                array_view(*y);
            }
            if x.len() != y.len() {
                return false;
            }
            let mut i: usize = 0;
            while i < x.len()
                invariant
                    i <= x.len(),
                    forall|j: int| 0 <= j < i ==> strict_equal(o, #[trigger] xs[j], ys[j]),
                decreases x.len() - i,
            {
                if !is_strict_equal(&x[i], &y[i], k) {
                    assert(!strict_equal(o, xs[i as int], ys[i as int]));
                    return false;
                }
                i = i + 1;
            }
            true
        },
        (Value::Object(x), Value::Object(y)) => {
            let ghost xs = members_of(x@);
            let ghost ys = members_of(y@);
            proof {
                object_view(*x);
                object_view(*y);
            }
            let mut i: usize = 0;
            while i < x.len()
                invariant
                    i <= x.len(),
                    forall|j: int|
                        0 <= j < i && leads(xs, j) ==> match member(ys, (#[trigger] xs[j]).0) {
                            Some(v) => strict_equal(o, xs[j].1, v),
                            None => false,
                        },
                decreases x.len() - i,
            {
                if Value::is_first(x, i) {
                    let same = match Value::find(y, x[i].0.as_str()) {
                        Some(v) => is_strict_equal(&x[i].1, v, k),
                        None => false,
                    };
                    if !same {
                        assert(leads(xs, i as int) && !(match member(ys, xs[i as int].0) {
                            Some(v) => strict_equal(o, xs[i as int].1, v),
                            None => false,
                        }));
                        return false;
                    }
                }
                i = i + 1;
            }
            let mut j: usize = 0;
            while j < y.len()
                invariant
                    j <= y.len(),
                    forall|m: int| 0 <= m < j ==> member(xs, (#[trigger] ys[m]).0) is Some,
                decreases y.len() - j,
            {
                if Value::find(x, y[j].0.as_str()).is_none() {
                    assert(member(xs, ys[j as int].0) is None);
                    return false;
                }
                j = j + 1;
            }
            true
        },
        _ => false,
    }
}

/// Whether both values have a number and the two numbers are equal.
fn equal_as_numbers<K: Fn(Query) -> Reply>(a: &Value, b: &Value, k: &K) -> (r: bool)
    requires
        is_kernel(*k),
    ensures
        r == numerically_equal(answers(*k), a@, b@),
{
    match (coerce_to_number(a, k), coerce_to_number(b, k)) {
        (Some(x), Some(y)) => equal_numbers(x, y, k),
        _ => false,
    }
}

/// Equality with coercion.
pub fn is_abstract_equal<K: Fn(Query) -> Reply>(a: &Value, b: &Value, k: &K) -> (r: bool)
    requires
        is_kernel(*k),
    ensures
        r == loose_equal(answers(*k), a@, b@),
{
    match (a, b) {
        (Value::Null, Value::Null) => true,
        (Value::Null, _) | (_, Value::Null) => false,
        (Value::Bool(x), Value::Bool(y)) => *x == *y,
        (Value::Bool(_), _) | (_, Value::Bool(_)) => equal_as_numbers(a, b, k),
        (Value::Number(_), Value::Number(_)) => is_strict_equal(a, b, k),
        (Value::Number(_), _) | (_, Value::Number(_)) => equal_as_numbers(a, b, k),
        (Value::String(x), Value::String(y)) => same_text(x.as_str(), y.as_str()),
        (Value::String(x), _) => {
            let text = coerce_to_str(b, k);
            same_text(text.as_str(), x.as_str())
        },
        (_, Value::String(y)) => {
            let text = coerce_to_str(a, k);
            same_text(text.as_str(), y.as_str())
        },
        _ => is_strict_equal(a, b, k),
    }
}

/// Whether `a` is less than `b`.
pub fn less_than<K: Fn(Query) -> Reply>(a: &Value, b: &Value, k: &K) -> (r: bool)
    requires
        is_kernel(*k),
    ensures
        r == less(answers(*k), a@, b@),
{
    match (coerce_to_number(a, k), coerce_to_number(b, k)) {
        (Some(x), Some(y)) => less_numbers(x, y, k),
        _ => {
            let x = chars_of(coerce_to_str(a, k).as_str());
            let y = chars_of(coerce_to_str(b, k).as_str());
            comes_before(x.as_slice(), y.as_slice())
        },
    }
}

/// Whether `a` is less than or equal to `b`.
pub fn less_equal_than<K: Fn(Query) -> Reply>(a: &Value, b: &Value, k: &K) -> (r: bool)
    requires
        is_kernel(*k),
    ensures
        r == less_equal(answers(*k), a@, b@),
{
    match (coerce_to_number(a, k), coerce_to_number(b, k)) {
        (Some(x), Some(y)) => less_numbers(x, y, k) || equal_numbers(x, y, k),
        _ => {
            let x = chars_of(coerce_to_str(a, k).as_str());
            let y = chars_of(coerce_to_str(b, k).as_str());
            comes_before(x.as_slice(), y.as_slice()) || crate::text::same_chars(
                x.as_slice(),
                y.as_slice(),
            )
        },
    }
}

/// Whether `a` is greater than `b`: `b` is less than `a`.
pub fn greater_than<K: Fn(Query) -> Reply>(a: &Value, b: &Value, k: &K) -> (r: bool)
    requires
        is_kernel(*k),
    ensures
        r == less(answers(*k), b@, a@),
{
    less_than(b, a, k)
}

/// Whether `a` is greater than or equal to `b`: `b` is less than or equal
/// to `a`.
pub fn greater_equal_than<K: Fn(Query) -> Reply>(a: &Value, b: &Value, k: &K) -> (r: bool)
    requires
        is_kernel(*k),
    ensures
        r == less_equal(answers(*k), b@, a@),
{
    less_equal_than(b, a, k)
}

/// A value as the bits of a double, where it has a number.
pub fn coerce_to_double<K: Fn(Query) -> Reply>(value: &Value, k: &K) -> (r: Option<u64>)
    requires
        is_kernel(*k),
    ensures
        r == to_double(answers(*k), value@),
{
    match coerce_to_number(value, k) {
        Some(n) => ask_double(k, n),
        None => None,
    }
}

/// The result of an operation on two doubles.
pub fn combine<K: Fn(Query) -> Reply>(k: &K, op: ArithOp, a: Option<u64>, b: Option<u64>) -> (r:
    Option<u64>)
    requires
        is_kernel(*k),
    ensures
        r == combined(answers(*k), op, a, b),
{
    match (a, b) {
        (Some(x), Some(y)) => ask_arith(k, op, x, y),
        _ => None,
    }
}

/// The number with these bits, or `null`.
pub fn finite_number(bits: Option<u64>) -> (r: Value)
    ensures
        r@ == number_or_null(bits),
{
    match bits {
        Some(b) => if is_finite(b) {
            Value::Number(Number::Float(b))
        } else {
            Value::Null
        },
        None => Value::Null,
    }
}

} // verus!

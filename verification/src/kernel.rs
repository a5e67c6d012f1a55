//! The numeric kernel: the arithmetic on doubles that the engine asks its
//! host for.
//!
//! The engine holds a double as its bit pattern and never computes on one.
//! Whenever a rule needs the sum of two doubles, the double nearest to an
//! integer, the double that a text writes or the text that writes a double,
//! the engine puts a `Query` to the kernel, a function that the caller
//! passes in. Every contract of the engine is stated over what the kernel
//! answers, and holds for every kernel that is a function: the same
//! question always has the same answer.

use crate::value::Number;
use vstd::prelude::*;

verus! {

/// The arithmetic operations on two doubles.
#[derive(Clone, Copy, Debug, PartialEq)]
pub enum ArithOp {
    Add,
    Sub,
    Mul,
    Div,
    Rem,
}

/// A question to the kernel.
#[derive(Debug, PartialEq)]
pub enum Query {
    /// The bits of the double nearest to this number.
    Double(Number),
    /// The bits of the result of the operation on the two doubles with
    /// these bits.
    Arith(ArithOp, u64, u64),
    /// The bits of the double that this text writes, if it writes one.
    /// The text is not empty, and has no white space at its ends.
    Parse(String),
    /// The text that writes the double with these bits.
    Show(u64),
}

/// The model of a question.
pub enum Question {
    Double(Number),
    Arith(ArithOp, u64, u64),
    Parse(Seq<char>),
    Show(u64),
}

impl View for Query {
    type V = Question;

    open spec fn view(&self) -> Question {
        match self {
            Query::Double(n) => Question::Double(*n),
            Query::Arith(op, a, b) => Question::Arith(*op, *a, *b),
            Query::Parse(s) => Question::Parse(s@),
            Query::Show(b) => Question::Show(*b),
        }
    }
}

/// An answer of the kernel.
#[derive(Debug, PartialEq)]
pub enum Reply {
    /// The bits of a double.
    Bits(u64),
    /// A text.
    Text(String),
    /// There is no answer: the text writes no number.
    Undefined,
}

/// The model of an answer.
pub enum Answer {
    Bits(u64),
    Text(Seq<char>),
    Undefined,
}

impl View for Reply {
    type V = Answer;

    open spec fn view(&self) -> Answer {
        match self {
            Reply::Bits(b) => Answer::Bits(*b),
            Reply::Text(s) => Answer::Text(s@),
            Reply::Undefined => Answer::Undefined,
        }
    }
}

/// A kernel as contracts see it: a function from questions to answers.
pub type Oracle = spec_fn(Question) -> Answer;

/// What the kernel `k` answers to each question.
pub open spec fn answers<K: Fn(Query) -> Reply>(k: K) -> Oracle {
    |q: Question| (choose|p: (Query, Reply)| p.0@ == q && #[trigger] k.ensures((p.0,), p.1)).1@
}

/// Whether `k` can serve as a kernel: it accepts every question, and what
/// it answers depends on the question alone.
pub open spec fn is_kernel<K: Fn(Query) -> Reply>(k: K) -> bool {
    &&& forall|q: Query| k.requires((q,))
    &&& forall|q: Query, r: Reply| #[trigger] k.ensures((q,), r) ==> r@ == answers(k)(q@)
}

/// A kernel whose answers are given by a function of the question is a
/// kernel, and answers as that function says.
pub proof fn determined_is_kernel<K: Fn(Query) -> Reply>(k: K, f: Oracle)
    requires
        forall|q: Query| k.requires((q,)),
        forall|q: Query, r: Reply| #[trigger] k.ensures((q,), r) ==> r@ == f(q@),
    ensures
        is_kernel(k),
        forall|q: Query, r: Reply| #[trigger] k.ensures((q,), r) ==> answers(k)(q@) == f(q@),
{
    assert forall|q: Query, r: Reply| #[trigger] k.ensures((q,), r) implies r@ == answers(k)(q@)
        && answers(k)(q@) == f(q@) by {
        let given = (q, r);
        assert(given.0@ == q@ && k.ensures((given.0,), given.1));
        let chosen = choose|p: (Query, Reply)| p.0@ == q@ && #[trigger] k.ensures((p.0,), p.1);
        assert(k.ensures((chosen.0,), chosen.1));
    }
}

/// The kernel for rules and data without doubles: it has no answer to
/// any question. With it, integers are compared exactly, a comparison
/// with a double is `false`, and arithmetic gives `null`.
pub fn no_doubles(q: Query) -> (r: Reply)
    ensures
        r == Reply::Undefined,
{
    Reply::Undefined
}

/// `no_doubles` is a kernel.
pub proof fn no_doubles_is_kernel()
    ensures
        is_kernel(no_doubles),
{
    determined_is_kernel(no_doubles, |q: Question| Answer::Undefined);
}

/// The bits in an answer, where it holds bits.
pub open spec fn bits_in(a: Answer) -> Option<u64> {
    match a {
        Answer::Bits(b) => Some(b),
        _ => None,
    }
}

/// The text in an answer; the empty text where it holds none.
pub open spec fn text_in(a: Answer) -> Seq<char> {
    match a {
        Answer::Text(s) => s,
        _ => Seq::<char>::empty(),
    }
}

/// The bits of `n` as a double: its own bits where it is a double, else
/// those of the double nearest to the integer, by the kernel.
pub open spec fn double_of(o: Oracle, n: Number) -> Option<u64> {
    match n {
        Number::Float(b) => Some(b),
        _ => bits_in(o(Question::Double(n))),
    }
}

/// Whether the double with these bits is finite: neither an infinity nor
/// a NaN.
pub open spec fn finite(bits: u64) -> bool {
    magnitude(bits) < 0x7ff0_0000_0000_0000
}

/// The bits of a double without its sign.
pub open spec fn magnitude(bits: u64) -> int {
    if bits >= 0x8000_0000_0000_0000 {
        bits - 0x8000_0000_0000_0000
    } else {
        bits as int
    }
}

/// An integer that orders finite doubles as their values do: the
/// magnitude, negated where the sign is set. Both zeros have rank 0.
pub open spec fn rank(bits: u64) -> int {
    if bits >= 0x8000_0000_0000_0000 {
        -magnitude(bits)
    } else {
        magnitude(bits)
    }
}

/// The bits of the double with the opposite sign.
pub open spec fn negated(bits: u64) -> u64 {
    if bits >= 0x8000_0000_0000_0000 {
        (bits - 0x8000_0000_0000_0000) as u64
    } else {
        (bits + 0x8000_0000_0000_0000) as u64
    }
}

/// The rank of a double's bits.
pub fn rank_of(bits: u64) -> (r: i128)
    ensures
        r == rank(bits),
{
    if bits >= 0x8000_0000_0000_0000 {
        -((bits - 0x8000_0000_0000_0000) as i128)
    } else {
        bits as i128
    }
}

/// Whether the double with these bits is finite.
pub fn is_finite(bits: u64) -> (r: bool)
    ensures
        r == finite(bits),
{
    if bits >= 0x8000_0000_0000_0000 {
        bits - 0x8000_0000_0000_0000 < 0x7ff0_0000_0000_0000
    } else {
        bits < 0x7ff0_0000_0000_0000
    }
}

/// The bits of the double with the opposite sign.
pub fn negate(bits: u64) -> (r: u64)
    ensures
        r == negated(bits),
{
    if bits >= 0x8000_0000_0000_0000 {
        bits - 0x8000_0000_0000_0000
    } else {
        bits + 0x8000_0000_0000_0000
    }
}

/// Asks the kernel for `n` as a double.
pub fn ask_double<K: Fn(Query) -> Reply>(k: &K, n: Number) -> (r: Option<u64>)
    requires
        is_kernel(*k),
    ensures
        r == double_of(answers(*k), n),
{
    match n {
        Number::Float(b) => Some(b),
        _ => match k(Query::Double(n)) {
            Reply::Bits(b) => Some(b),
            _ => None,
        },
    }
}

/// Asks the kernel for the result of an operation on two doubles.
pub fn ask_arith<K: Fn(Query) -> Reply>(k: &K, op: ArithOp, a: u64, b: u64) -> (r: Option<u64>)
    requires
        is_kernel(*k),
    ensures
        r == bits_in(answers(*k)(Question::Arith(op, a, b))),
{
    match k(Query::Arith(op, a, b)) {
        Reply::Bits(b) => Some(b),
        _ => None,
    }
}

/// Asks the kernel for the double that a text writes.
pub fn ask_parse<K: Fn(Query) -> Reply>(k: &K, s: &str) -> (r: Option<u64>)
    requires
        is_kernel(*k),
    ensures
        r == bits_in(answers(*k)(Question::Parse(s@))),
{
    match k(Query::Parse(s.to_owned())) {
        Reply::Bits(b) => Some(b),
        _ => None,
    }
}

/// Asks the kernel for the text that writes a double.
pub fn ask_show<K: Fn(Query) -> Reply>(k: &K, bits: u64) -> (r: String)
    requires
        is_kernel(*k),
    ensures
        r@ == text_in(answers(*k)(Question::Show(bits))),
{
    match k(Query::Show(bits)) {
        Reply::Text(s) => s,
        _ => String::new(),
    }
}

} // verus!

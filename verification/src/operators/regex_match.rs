//! `match`: whether a regular expression finds a match in a text.

use super::{operands, partial_operands, read_count, Operator};
use crate::data::Data;
use crate::expression::{exprs_of, outcome_of, partial_result, result, Expression, PartialResult};
use crate::kernel::{answers, is_kernel, Oracle, Query, Reply};
use crate::logic::{coerce_to_str, to_text};
use crate::text::{chars_of, push_char, push_text};
use crate::value::{jsons_of, Json, Value};
use vstd::prelude::*;

verus! {

#[verifier::external_type_specification]
#[verifier::external_body]
pub struct ExRegex(regex::Regex);

#[verifier::external_type_specification]
#[verifier::external_body]
pub struct ExRegexError(regex::Error);

/// Whether `pattern` is a regular expression that the crate `regex`
/// compiles.
pub uninterp spec fn regex_accepts(pattern: Seq<char>) -> bool;

/// The pattern that a compiled regular expression was made from.
pub uninterp spec fn regex_pattern(re: regex::Regex) -> Seq<char>;

/// Whether the regular expression `pattern` has a match anywhere in
/// `text`.
pub uninterp spec fn regex_finds(pattern: Seq<char>, text: Seq<char>) -> bool;

/// `Regex::new` of the crate `regex`: compiles a pattern, or says why it
/// cannot. Whether it does depends on the pattern alone, and the compiled
/// expression keeps the pattern it was made from.
#[verifier::external_body]
fn compile(pattern: &str) -> (r: Result<regex::Regex, regex::Error>)
    ensures
        r is Ok <==> regex_accepts(pattern@),
        r matches Ok(re) ==> regex_pattern(re) == pattern@,
{
    regex::Regex::new(pattern)
}

/// `Regex::is_match` of the crate `regex`: whether there is a match for
/// the expression anywhere in the text. The answer depends on the pattern
/// and the text alone.
#[verifier::external_body]
fn is_match(re: &regex::Regex, text: &str) -> (r: bool)
    ensures
        r == regex_finds(regex_pattern(*re), text@),
{
    re.is_match(text)
}

/// The text without the first `c` in it.
pub open spec fn without_first(s: Seq<char>, c: char) -> Seq<char>
    decreases s.len(),
{
    if s.len() == 0 {
        s
    } else if s[0] == c {
        s.drop_first()
    } else {
        seq![s[0]] + without_first(s.drop_first(), c)
    }
}

/// The pattern with its flags: the flags without their first `g`, where
/// any are left, are put in front of the pattern as `(?flags)`.
pub open spec fn flagged(pattern: Seq<char>, flags: Seq<char>) -> Seq<char> {
    let kept = without_first(flags, 'g');
    if kept.len() > 0 {
        seq!['(', '?'] + kept + seq![')'] + pattern
    } else {
        pattern
    }
}

/// The pattern that the operands make: the second as text, with the
/// flags of the third where that is a string.
pub open spec fn pattern_of(o: Oracle, vals: Seq<Json>) -> Seq<char> {
    if vals.len() >= 3 && vals[2] is String {
        flagged(to_text(o, vals[1]), vals[2]->String_0)
    } else {
        to_text(o, vals[1])
    }
}

/// Whether the pattern compiles and finds a match in the first operand
/// as text; `false` where the text or the pattern is missing.
pub open spec fn value(o: Oracle, vals: Seq<Json>) -> Json {
    if vals.len() < 2 {
        Json::Bool(false)
    } else {
        Json::Bool(
            regex_accepts(pattern_of(o, vals)) && regex_finds(
                pattern_of(o, vals),
                to_text(o, vals[0]),
            ),
        )
    }
}

/// The pattern with its flags.
fn with_flags(pattern: String, flags: &str) -> (r: String)
    ensures
        r@ == flagged(pattern@, flags@),
{
    let cs = chars_of(flags);
    let mut kept = String::new();
    let mut removed = false;
    let mut i: usize = 0;
    assert(cs@.skip(0) =~= cs@);
    while i < cs.len()
        invariant
            i <= cs.len(),
            without_first(cs@, 'g') == kept@ + (if removed {
                cs@.skip(i as int)
            } else {
                without_first(cs@.skip(i as int), 'g')
            }),
        decreases cs.len() - i,
    {
        let ghost rest = cs@.skip(i as int);
        proof {
            assert(rest.drop_first() =~= cs@.skip(i + 1));
            assert(rest[0] == cs@[i as int]);
        }
        if !removed && cs[i] == 'g' {
            removed = true;
        } else {
            let ghost before = kept@;
            push_char(&mut kept, cs[i]);
            proof {
                if removed {
                    assert(before + rest =~= kept@ + cs@.skip(i + 1));
                } else {
                    assert(before + (seq![rest[0]] + without_first(rest.drop_first(), 'g'))
                        =~= kept@ + without_first(cs@.skip(i + 1), 'g'));
                }
            }
        }
        i = i + 1;
    }
    assert(kept@ + cs@.skip(cs.len() as int) =~= kept@);
    assert(kept@ + without_first(cs@.skip(cs.len() as int), 'g') =~= kept@);
    if kept.as_str().is_empty() {
        pattern
    } else {
        let mut out = String::new();
        push_char(&mut out, '(');
        push_char(&mut out, '?');
        push_text(&mut out, kept.as_str());
        push_char(&mut out, ')');
        push_text(&mut out, pattern.as_str());
        assert(out@ =~= seq!['(', '?'] + kept@ + seq![')'] + pattern@);
        out
    }
}

/// The operator on the values of its operands.
pub fn apply<K: Fn(Query) -> Reply>(vals: &[Value], k: &K) -> (r: Value)
    requires
        is_kernel(*k),
    ensures
        r@ == value(answers(*k), jsons_of(vals@)),
{
    if vals.len() < 2 {
        return Value::Bool(false);
    }
    let mut pattern = coerce_to_str(&vals[1], k);
    if vals.len() >= 3 {
        match &vals[2] {
            Value::String(flags) => {
                pattern = with_flags(pattern, flags.as_str());
            },
            _ => {},
        }
    }
    match compile(pattern.as_str()) {
        Ok(re) => {
            let text = coerce_to_str(&vals[0], k);
            Value::Bool(is_match(&re, text.as_str()))
        },
        Err(_) => Value::Bool(false),
    }
}

/// Evaluates the operator on its arguments.
pub fn compute<K: Fn(Query) -> Reply>(args: &[Expression], data: &Data, k: &K) -> (r: Value)
    requires
        is_kernel(*k),
    ensures
        r@ == result(answers(*k), Operator::RegexMatch, exprs_of(args@), data@),
    decreases args@, 3int,
{
    let vals = operands(args, data, k, read_count(Operator::RegexMatch, args.len()));
    apply(vals.as_slice(), k)
}

// Ambiguous as soon as one of the operands is.
pub fn partial_compute<K: Fn(Query) -> Reply>(args: &[Expression], data: &Data, k: &K) -> (r:
    PartialResult)
    requires
        is_kernel(*k),
    ensures
        outcome_of(r) == partial_result(answers(*k), Operator::RegexMatch, exprs_of(args@), data@),
    decreases args@, 3int,
{
    match partial_operands(args, data, k, read_count(Operator::RegexMatch, args.len())) {
        Ok(vals) => Ok(apply(vals.as_slice(), k)),
        Err(a) => Err(a),
    }
}

} // verus!

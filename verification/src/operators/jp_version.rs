//! Ordering of version strings such as `2.0.4-rc.12`.

use crate::text::{
    chars_of, comes_before, precedes, same_chars, split, split_at_any, texts_of, unsigned_value,
    unsigned_within,
};
use std::cmp::Ordering;
use unicode_normalization::UnicodeNormalization;
use vstd::prelude::*;

verus! {

/// The canonical composition (Unicode normalization form C) of a text.
pub uninterp spec fn nfc_form(s: Seq<char>) -> Seq<char>;

/// `UnicodeNormalization::nfc` of the crate `unicode-normalization`,
/// collected into a string: the text in normalization form C. The result
/// depends on the characters of `s` alone.
#[verifier::external_body]
fn nfc(s: &str) -> (r: String)
    ensures
        r@ == nfc_form(s@),
{
    s.nfc().collect::<String>()
}

/// The characters that part the components of a version.
pub open spec fn separators() -> Seq<char> {
    seq!['.', '-']
}

/// The number a component stands for: an unsigned integer of 32 bits.
pub open spec fn component_number(c: Seq<char>) -> Option<nat> {
    match unsigned_value(c) {
        Some(n) if n <= 0xffff_ffff => Some(n),
        _ => None,
    }
}

/// How one component stands to another. With `numeric`, two components
/// that both write a number are ordered as numbers; all others as texts.
pub open spec fn component_order(a: Seq<char>, b: Seq<char>, numeric: bool) -> Ordering {
    match (component_number(a), component_number(b)) {
        (Some(x), Some(y)) if numeric => if x < y {
            Ordering::Less
        } else if x == y {
            Ordering::Equal
        } else {
            Ordering::Greater
        },
        _ => if precedes(a, b) {
            Ordering::Less
        } else if a == b {
            Ordering::Equal
        } else {
            Ordering::Greater
        },
    }
}

/// How the components from position `i` on stand to each other: the
/// first pair that differs decides, and where one list ends first, the
/// list that has run out is the greater.
pub open spec fn components_order(
    xs: Seq<Seq<char>>,
    ys: Seq<Seq<char>>,
    numeric: bool,
    i: int,
) -> Ordering
    decreases xs.len() + ys.len() - i,
{
    if i < 0 || (i >= xs.len() && i >= ys.len()) {
        Ordering::Equal
    } else if i >= xs.len() {
        Ordering::Greater
    } else if i >= ys.len() {
        Ordering::Less
    } else {
        match component_order(xs[i], ys[i], numeric) {
            Ordering::Equal => components_order(xs, ys, numeric, i + 1),
            decided => decided,
        }
    }
}

/// How two versions in normalization form C stand to each other: both
/// are split at every `.` and `-`, and compared component by component.
pub open spec fn normalized_order(a: Seq<char>, b: Seq<char>, numeric: bool) -> Ordering {
    components_order(split(a, separators()), split(b, separators()), numeric, 0)
}

/// How version `a` stands to version `b`: as their normalization forms C
/// stand to each other.
pub open spec fn version_order(a: Seq<char>, b: Seq<char>, numeric: bool) -> Ordering {
    normalized_order(nfc_form(a), nfc_form(b), numeric)
}

/// The components of a version: the pieces between `.` and `-`.
pub fn split_version(version: &str) -> (components: Vec<String>)
    ensures
        texts_of(components@) == split(version@, separators()),
{
    let seps: [char; 2] = ['.', '-'];
    assert(seps@ =~= separators());
    split_at_any(version, seps.as_slice())
}

/// Orders two components.
fn compare_component(s1: &str, s2: &str, alpha_numeric: bool) -> (order: Ordering)
    ensures
        order == component_order(s1@, s2@, alpha_numeric),
{
    let c1 = chars_of(s1);
    let c2 = chars_of(s2);
    if alpha_numeric {
        match (
            unsigned_within(c1.as_slice(), 0xffff_ffff),
            unsigned_within(c2.as_slice(), 0xffff_ffff),
        ) {
            (Some(i1), Some(i2)) => {
                return if i1 < i2 {
                    Ordering::Less
                } else if i1 == i2 {
                    Ordering::Equal
                } else {
                    Ordering::Greater
                };
            },
            _ => {},
        }
    }
    if comes_before(c1.as_slice(), c2.as_slice()) {
        Ordering::Less
    } else if same_chars(c1.as_slice(), c2.as_slice()) {
        Ordering::Equal
    } else {
        Ordering::Greater
    }
}

/// Orders two version strings that are in normalization form C. With
/// `alpha_numeric`, components that both write an unsigned integer are
/// compared as numbers.
pub fn compare_normalized(norm_str1: &str, norm_str2: &str, alpha_numeric: bool) -> (order:
    Ordering)
    ensures
        order == normalized_order(norm_str1@, norm_str2@, alpha_numeric),
{
    let parts1 = split_version(norm_str1);
    let parts2 = split_version(norm_str2);
    let ghost xs = texts_of(parts1@);
    let ghost ys = texts_of(parts2@);
    let ghost mut at: int = 0;
    let mut i: usize = 0;
    while i < parts1.len() || i < parts2.len()
        invariant
            xs == texts_of(parts1@),
            ys == texts_of(parts2@),
            xs == split(norm_str1@, separators()),
            ys == split(norm_str2@, separators()),
            at == i,
            components_order(xs, ys, alpha_numeric, 0) == components_order(
                xs,
                ys,
                alpha_numeric,
                at,
            ),
        decreases parts1.len() + parts2.len() - i,
    {
        if i >= parts1.len() {
            return Ordering::Greater;
        }
        if i >= parts2.len() {
            return Ordering::Less;
        }
        let order = compare_component(parts1[i].as_str(), parts2[i].as_str(), alpha_numeric);
        match order {
            Ordering::Equal => {},
            _ => {
                return order;
            },
        }
        i = i + 1;
        proof {
            at = at + 1;
        }
    }
    Ordering::Equal
}

/// Orders two version strings: both are brought into normalization form
/// C and compared as `compare_normalized` does.
pub fn compare_version(str1: &str, str2: &str, alpha_numeric: bool) -> (order: Ordering)
    ensures
        order == version_order(str1@, str2@, alpha_numeric),
{
    let norm_str1 = nfc(str1);
    let norm_str2 = nfc(str2);
    compare_normalized(norm_str1.as_str(), norm_str2.as_str(), alpha_numeric)
}

} // verus!

//! The value of a decimal integer literal.

use crate::chars::{digit, is_digit};
use vstd::prelude::*;

verus! {

/// The number that the digit `c` stands for.
pub open spec fn digit_value(c: char) -> int {
    c as int - '0' as int
}

/// The number that a sequence of digits denotes in base ten; the empty
/// sequence denotes zero.
pub open spec fn decimal_value(digits: Seq<char>) -> int
    decreases digits.len(),
{
    if digits.len() == 0 {
        0
    } else {
        10 * decimal_value(digits.drop_last()) + digit_value(digits.last())
    }
}

/// A decimal literal: one digit or more, and nothing else.
pub open spec fn is_decimal(text: Seq<char>) -> bool {
    text.len() > 0 && forall|i: int| 0 <= i < text.len() ==> is_digit(#[trigger] text[i])
}

/// A literal denotes at least as much as any of its prefixes, and nothing
/// negative.
pub proof fn lemma_decimal_value_grows(digits: Seq<char>, n: int)
    requires
        0 <= n <= digits.len(),
        forall|i: int| 0 <= i < digits.len() ==> is_digit(#[trigger] digits[i]),
    ensures
        0 <= decimal_value(digits.take(n)) <= decimal_value(digits),
    decreases digits.len() - n,
{
    if n == digits.len() {
        assert(digits.take(n) =~= digits);
        lemma_decimal_value_is_natural(digits);
    } else {
        lemma_decimal_value_grows(digits, n + 1);
        let longer = digits.take(n + 1);
        assert(longer.drop_last() =~= digits.take(n));
        assert(is_digit(longer.last()));
        lemma_decimal_value_is_natural(digits.take(n));
    }
}

/// A sequence of digits denotes nothing negative.
pub proof fn lemma_decimal_value_is_natural(digits: Seq<char>)
    requires
        forall|i: int| 0 <= i < digits.len() ==> is_digit(#[trigger] digits[i]),
    ensures
        0 <= decimal_value(digits),
    decreases digits.len(),
{
    if digits.len() > 0 {
        lemma_decimal_value_is_natural(digits.drop_last());
        assert(is_digit(digits.last()));
    }
}

/// The number that the digit `c` stands for.
fn digit_number(c: char) -> (value: i64)
    requires
        is_digit(c),
    ensures
        value == digit_value(c),
        0 <= value <= 9,
{
    (c as u32 - '0' as u32) as i64
}

/// Reads a decimal literal. The result is the number that the digits denote,
/// if `text` is a decimal literal and the number fits in an `i64`; it is
/// `None` in every other case.
pub fn decimal(text: &[char]) -> (value: Option<i64>)
    ensures
        value is Some <==> is_decimal(text@) && decimal_value(text@) <= i64::MAX,
        value is Some ==> value->0 == decimal_value(text@),
{
    if text.len() == 0 {
        return None;
    }
    let mut total: i64 = 0;
    let mut i: usize = 0;
    while i < text.len()
        invariant
            i <= text.len(),
            forall|j: int| 0 <= j < i ==> is_digit(#[trigger] text@[j]),
            total == decimal_value(text@.take(i as int)),
            0 <= total,
        decreases text.len() - i,
    {
        let c: char = text[i];
        if !digit(c) {
            return None;
        }
        let unit: i64 = digit_number(c);
        proof {
            assert(text@.take(i + 1).drop_last() =~= text@.take(i as int));
            assert(text@.take(i + 1).last() == c);
        }
        if total > (i64::MAX - unit) / 10 {
            proof {
                if is_decimal(text@) {
                    lemma_decimal_value_grows(text@, i + 1);
                }
            }
            return None;
        }
        total = 10 * total + unit;
        i += 1;
    }
    proof {
        assert(text@.take(i as int) =~= text@);
    }
    Some(total)
}

} // verus!

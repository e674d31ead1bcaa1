use vstd::prelude::*;
use vstd::string::*;

use crate::text::chars_of;

verus! {

/// Whether a character is one of the ten decimal digits.
pub open spec fn is_digit(c: char) -> bool {
    '0' <= c <= '9'
}

/// The number that a decimal digit stands for.
pub open spec fn digit_value(c: char) -> nat {
    if is_digit(c) {
        (c as u32 - '0' as u32) as nat
    } else {
        0
    }
}

/// The number that a row of decimal digits spells out.
pub open spec fn decimal_value(digits: Seq<char>) -> nat
    decreases digits.len(),
{
    if digits.len() == 0 {
        0
    } else {
        decimal_value(digits.drop_last()) * 10 + digit_value(digits.last())
    }
}

/// What is left of a number once one leading plus sign, if there is one, is
/// taken away.
pub open spec fn unsigned_part(text: Seq<char>) -> Seq<char> {
    if text.len() > 0 && text[0] == '+' {
        text.skip(1)
    } else {
        text
    }
}

/// Whether a text is made of decimal digits only.
pub open spec fn all_digits(digits: Seq<char>) -> bool {
    forall|i: int| 0 <= i < digits.len() ==> is_digit(#[trigger] digits[i])
}

/// The signal number that a text spells out: an optional plus sign, then at
/// least one decimal digit and nothing else, the whole no greater than the
/// largest unsigned 32-bit number. Any other text spells out no signal.
pub open spec fn signal_number(text: Seq<char>) -> Option<u32> {
    let digits = unsigned_part(text);
    if digits.len() > 0 && all_digits(digits) && decimal_value(digits) <= u32::MAX {
        Some(decimal_value(digits) as u32)
    } else {
        None
    }
}

/// A row of digits spells out at least what any beginning of it does.
proof fn lemma_value_grows(digits: Seq<char>, k: int)
    requires
        0 <= k <= digits.len(),
    ensures
        decimal_value(digits.take(k)) <= decimal_value(digits),
    decreases digits.len() - k,
{
    if k == digits.len() {
        assert(digits.take(k) =~= digits);
    } else {
        assert(digits.drop_last().take(k) =~= digits.take(k));
        lemma_value_grows(digits.drop_last(), k);
    }
}

/// Reads the signal of a `kill` as an unsigned 32-bit number.
pub fn parse_signal(text: &str) -> (signal: Option<u32>)
    ensures
        signal == signal_number(text@),
{
    let chars = chars_of(text);
    let start: usize = if chars.len() > 0 && chars[0] == '+' {
        1
    } else {
        0
    };
    let ghost digits = unsigned_part(text@);
    assert(digits =~= chars@.skip(start as int));
    if start == chars.len() {
        return None;
    }
    let mut value: u64 = 0;
    let mut at: usize = start;
    while at < chars.len()
        invariant
            start <= at <= chars.len(),
            digits == chars@.skip(start as int),
            digits == unsigned_part(text@),
            value <= u32::MAX,
            value == decimal_value(digits.take(at - start)),
            forall|i: int| 0 <= i < at - start ==> is_digit(#[trigger] digits[i]),
        decreases chars.len() - at,
    {
        let c = chars[at];
        if c < '0' || c > '9' {
            assert(!is_digit(digits[at - start]));
            return None;
        }
        let digit: u64 = (c as u32 - '0' as u32) as u64;
        assert(digits.take(at - start + 1).drop_last() =~= digits.take(at - start));
        assert(digits.take(at - start + 1).last() == c);
        value = value * 10 + digit;
        if value > u32::MAX as u64 {
            proof {
                lemma_value_grows(digits, at - start + 1);
            }
            return None;
        }
        at += 1;
    }
    assert(digits.take(at - start) =~= digits);
    Some(value as u32)
}

} // verus!

//! The expiration duration of a token kind, as the configuration holds it: a text of decimal
//! digits that counts seconds.

use vstd::prelude::*;

verus! {

pub open spec fn is_digit(c: char) -> bool {
    '0' <= c <= '9'
}

pub open spec fn all_digits(digits: Seq<char>) -> bool {
    forall|i: int| 0 <= i < digits.len() ==> is_digit(#[trigger] digits[i])
}

/// The number that a sequence of decimal digits writes, the first digit counting most.
pub open spec fn digits_value(digits: Seq<char>) -> nat
    decreases digits.len(),
{
    if digits.len() == 0 {
        0
    } else {
        10 * digits_value(digits.drop_last()) + (digits.last() as nat - '0' as nat) as nat
    }
}

/// The digits of a number's text: the text itself, without the plus sign that may lead it.
pub open spec fn digits_of(text: Seq<char>) -> Seq<char> {
    if text.len() > 0 && text[0] == '+' {
        text.skip(1)
    } else {
        text
    }
}

/// The number of seconds that a configured duration states: the text is one or more decimal
/// digits, which a plus sign may lead, and the number fits in `usize`.
pub open spec fn parse_seconds(text: Seq<char>) -> Option<usize> {
    let digits = digits_of(text);
    if digits.len() > 0 && all_digits(digits) && digits_value(digits) <= usize::MAX {
        Some(digits_value(digits) as usize)
    } else {
        None
    }
}

/// A number grows, or stays, with every digit that is written behind it.
pub proof fn lemma_digits_value_grows(digits: Seq<char>, len: int)
    requires
        all_digits(digits),
        0 <= len <= digits.len(),
    ensures
        digits_value(digits.take(len)) <= digits_value(digits),
    decreases digits.len() - len,
{
    if len == digits.len() {
        assert(digits.take(len) == digits);
    } else {
        lemma_digits_value_grows(digits, len + 1);
        assert(digits.take(len + 1).drop_last() == digits.take(len));
    }
}

/// Reads a configured duration.
pub fn parse_expire_secs(text: &str) -> (seconds: Option<usize>)
    ensures
        seconds == parse_seconds(text@),
{
    if !text.is_ascii() {
        proof {
            // A character beyond ASCII is neither a digit nor the leading plus sign.
            let at = choose|i: int|
                0 <= i < text@.len() && !('\0' <= #[trigger] text@[i] <= '\u{7f}');
            if text@[0] == '+' {
                assert(!is_digit(digits_of(text@)[at - 1]));
            }
        }
        return None;
    }
    let len = text.unicode_len();
    let start: usize = if len > 0 && text.get_ascii(0) == 43u8 {
        1
    } else {
        0
    };
    if start == len {
        return None;
    }
    let ghost digits = digits_of(text@);
    let mut at: usize = start;
    let mut value: usize = 0;
    while at < len
        invariant
            start <= at <= len,
            len == text@.len(),
            text.is_ascii(),
            digits == digits_of(text@),
            digits == text@.skip(start as int),
            all_digits(digits.take(at - start)),
            value == digits_value(digits.take(at - start)),
        decreases len - at,
    {
        let byte = text.get_ascii(at);
        assert(text@[at as int] == digits[at - start]);
        if byte < 48u8 || byte > 57u8 {
            return None;
        }
        let ghost longer = digits.take(at - start + 1);
        assert(longer.drop_last() == digits.take(at - start));
        assert(all_digits(longer));
        let digit: usize = (byte - 48u8) as usize;
        let next = match value.checked_mul(10) {
            Some(tens) => tens.checked_add(digit),
            None => None,
        };
        match next {
            Some(n) => {
                value = n;
            },
            None => {
                proof {
                    // The digits read so far already write a number beyond `usize`.
                    if all_digits(digits) {
                        lemma_digits_value_grows(digits, at - start + 1);
                    }
                }
                return None;
            },
        }
        at = at + 1;
    }
    assert(digits.take(at - start) == digits);
    Some(value)
}

} // verus!

//! Ids as the service sends them: numbers, or texts that hold a number.

use crate::text::{all_digits, digit_value, digits_value, is_digit, lemma_digits_value_grows};
use vstd::prelude::*;
use vstd::std_specs::iter::IteratorSpec;

verus! {

/// Why a text holds no id.
#[derive(Debug, Clone, Copy, PartialEq, Eq, Structural)]
pub enum IdTextError {
    /// The text is empty.
    Empty,
    /// The text holds something other than a sign and digits, or no digit.
    InvalidDigit,
    /// The number is above the largest id.
    TooLarge,
    /// The number is below the smallest id.
    TooSmall,
}

/// What is said of a null where an id must stand.
pub const NULL_ID_MESSAGE: &'static str = "ID cannot be null";

/// Whether a text starts with a minus sign.
pub open spec fn is_negative(text: Seq<char>) -> bool {
    text.len() > 0 && text[0] == '-'
}

/// The text without one leading sign.
pub open spec fn without_sign(text: Seq<char>) -> Seq<char> {
    if text.len() > 0 && (text[0] == '-' || text[0] == '+') {
        text.drop_first()
    } else {
        text
    }
}

/// The number of digits that a text starts with.
pub open spec fn digit_run(text: Seq<char>) -> nat
    decreases text.len(),
{
    if text.len() > 0 && is_digit(text[0]) {
        1 + digit_run(text.drop_first())
    } else {
        0
    }
}

/// The id that a text holds: digits after at most one sign, for a number
/// within `i64`. A text is read from its start, so a number that has left
/// the range is reported even where something other than a digit follows.
pub open spec fn id_in(text: Seq<char>) -> Result<i64, IdTextError> {
    let digits = without_sign(text);
    let run = digits.take(digit_run(digits) as int);
    let magnitude = digits_value(run);
    if text.len() == 0 {
        Err(IdTextError::Empty)
    } else if digits.len() == 0 {
        Err(IdTextError::InvalidDigit)
    } else if !is_negative(text) && magnitude > i64::MAX {
        Err(IdTextError::TooLarge)
    } else if is_negative(text) && -magnitude < i64::MIN {
        Err(IdTextError::TooSmall)
    } else if run.len() < digits.len() {
        Err(IdTextError::InvalidDigit)
    } else if is_negative(text) {
        Ok((-magnitude) as i64)
    } else {
        Ok(magnitude as i64)
    }
}

/// The id that an unsigned number stands for: the number itself where it
/// is within `i64`, and the negative number with the same bits otherwise.
pub open spec fn id_of_unsigned(value: u64) -> i64 {
    if value <= i64::MAX {
        value as i64
    } else {
        (value - 0x1_0000_0000_0000_0000) as i64
    }
}

/// A start of a text that is all digits and ends the text or stands before
/// something other than a digit is the run of digits the text starts with.
pub proof fn lemma_digit_run_is_longest(text: Seq<char>, n: int)
    requires
        0 <= n <= text.len(),
        all_digits(text.take(n)),
        n < text.len() ==> !is_digit(text[n]),
    ensures
        digit_run(text) == n,
    decreases n,
{
    if n > 0 {
        assert(text.take(n)[0] == text[0]);
        let rest = text.drop_first();
        assert forall|i: int| 0 <= i < n - 1 implies is_digit(#[trigger] rest.take(n - 1)[i]) by {
            assert(rest.take(n - 1)[i] == text.take(n)[i + 1]);
        }
        lemma_digit_run_is_longest(rest, n - 1);
    }
}

/// A text starts with at least as many digits as any of its starts that
/// is all digits, and with no more digits than it has characters.
pub proof fn lemma_digit_run_covers(text: Seq<char>, n: int)
    requires
        0 <= n <= text.len(),
        all_digits(text.take(n)),
    ensures
        n <= digit_run(text) <= text.len(),
    decreases text.len(),
{
    if text.len() > 0 && is_digit(text[0]) {
        let rest = text.drop_first();
        if n > 0 {
            assert forall|i: int| 0 <= i < n - 1 implies is_digit(
                #[trigger] rest.take(n - 1)[i],
            ) by {
                assert(rest.take(n - 1)[i] == text.take(n)[i + 1]);
            }
            lemma_digit_run_covers(rest, n - 1);
        } else {
            lemma_digit_run_covers(rest, 0);
        }
    } else if n > 0 {
        assert(text.take(n)[0] == text[0]);
    }
}

impl IdTextError {
    /// What is said of the failure.
    pub open spec fn message_text(self) -> Seq<char> {
        match self {
            IdTextError::Empty => "cannot parse integer from empty string"@,
            IdTextError::InvalidDigit => "invalid digit found in string"@,
            IdTextError::TooLarge => "number too large to fit in target type"@,
            IdTextError::TooSmall => "number too small to fit in target type"@,
        }
    }

    /// What is said of the failure.
    pub fn message(&self) -> (text: &'static str)
        ensures
            text@ == self.message_text(),
    {
        match self {
            IdTextError::Empty => "cannot parse integer from empty string",
            IdTextError::InvalidDigit => "invalid digit found in string",
            IdTextError::TooLarge => "number too large to fit in target type",
            IdTextError::TooSmall => "number too small to fit in target type",
        }
    }
}

/// The id that an unsigned number stands for.
pub fn id_from_unsigned(value: u64) -> (id: i64)
    ensures
        id == id_of_unsigned(value),
{
    if value <= 0x7fff_ffff_ffff_ffffu64 {
        value as i64
    } else {
        ((value - 0x8000_0000_0000_0000u64) as i64) + i64::MIN
    }
}

/// Reads an id from a text.
pub fn id_from_text(text: &str) -> (id: Result<i64, IdTextError>)
    ensures
        id == id_in(text@),
{
    broadcast use vstd::string::group_string_axioms;

    let mut chars = text.chars();
    let first = match chars.next() {
        Some(first) => first,
        None => {
            return Err(IdTextError::Empty);
        },
    };
    let negative = first == '-';
    let signed = negative || first == '+';
    let ghost digits = without_sign(text@);
    let mut pending: Option<char> = if signed {
        None
    } else {
        Some(first)
    };
    let ghost mut seen: int = 0;
    let mut value: i64 = 0;
    let mut any = false;
    loop
        invariant
            text@.len() > 0,
            negative == is_negative(text@),
            digits == without_sign(text@),
            0 <= seen <= digits.len(),
            any == (seen > 0),
            match pending {
                Some(c) => seen < digits.len() && digits[seen] == c && chars.remaining()
                    == digits.skip(seen + 1),
                None => chars.remaining() == digits.skip(seen),
            },
            all_digits(digits.take(seen)),
            negative ==> value == -digits_value(digits.take(seen)),
            !negative ==> value == digits_value(digits.take(seen)),
        decreases digits.len() - seen, (if pending is Some { 1int } else { 0int }),
    {
        let next = match pending {
            Some(c) => Some(c),
            None => chars.next(),
        };
        pending = None;
        let c = match next {
            Some(c) => c,
            None => {
                proof {
                    assert(seen == digits.len());
                    assert(digits.take(seen) =~= digits);
                    lemma_digit_run_is_longest(digits, seen);
                }
                if !any {
                    return Err(IdTextError::InvalidDigit);
                }
                return Ok(value);
            },
        };
        proof {
            assert(digits[seen] == c);
            if !is_digit(c) {
                lemma_digit_run_is_longest(digits, seen);
            }
        }
        if c < '0' || c > '9' {
            return Err(IdTextError::InvalidDigit);
        }
        let d: i64 = (c as u32 - '0' as u32) as i64;
        proof {
            let longer = digits.take(seen + 1);
            assert(longer.drop_last() =~= digits.take(seen));
            assert(longer.last() == c);
            assert(d == digit_value(c));
            assert(digits_value(longer) == digits_value(digits.take(seen)) * 10 + d);
            // Whatever follows, the run of digits reaches at least this
            // far, and the number it stands for is no smaller.
            assert forall|i: int| 0 <= i < seen + 1 implies is_digit(#[trigger] longer[i]) by {
                if i < seen {
                    assert(longer[i] == digits.take(seen)[i]);
                }
            }
            lemma_digit_run_covers(digits, seen + 1);
            let run = digit_run(digits) as int;
            assert(digits.take(run).take(seen + 1) =~= longer);
            lemma_digits_value_grows(digits.take(run), seen + 1);
        }
        let scaled = match value.checked_mul(10) {
            Some(scaled) => scaled,
            None => {
                return Err(
                    if negative {
                        IdTextError::TooSmall
                    } else {
                        IdTextError::TooLarge
                    },
                );
            },
        };
        if negative {
            value = match scaled.checked_sub(d) {
                Some(lower) => lower,
                None => {
                    return Err(IdTextError::TooSmall);
                },
            };
        } else {
            value = match scaled.checked_add(d) {
                Some(higher) => higher,
                None => {
                    return Err(IdTextError::TooLarge);
                },
            };
        }
        any = true;
        proof {
            seen = seen + 1;
        }
    }
}

} // verus!

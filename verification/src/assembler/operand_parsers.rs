//! Numbers and the immediate operand, written `#n`.

use vstd::prelude::*;
use vstd::string::*;
use crate::assembler::primitives::{CharClass, digit1, lemma_run_split, run_length, tag};
use crate::assembler::{ParseError, Token, token_result_view};

verus! {

/// The number that a decimal digit stands for.
pub open spec fn digit_value(c: char) -> nat {
    (c as nat - '0' as nat) as nat
}

/// The number that a text of decimal digits stands for.
pub open spec fn decimal_value(digits: Seq<char>) -> nat
    decreases digits.len(),
{
    if digits.len() == 0 {
        0
    } else {
        decimal_value(digits.drop_last()) * 10 + digit_value(digits.last())
    }
}

/// A text made of decimal digits only.
pub open spec fn all_digits(s: Seq<char>) -> bool {
    forall|i: int| 0 <= i < s.len() ==> CharClass::Digit.contains(#[trigger] s[i])
}

/// The digits that a text starts with stand for no more than the whole text does.
pub proof fn lemma_decimal_prefix(digits: Seq<char>, n: int)
    requires
        0 <= n <= digits.len(),
    ensures
        decimal_value(digits.take(n)) <= decimal_value(digits),
    decreases digits.len(),
{
    if n == digits.len() {
        assert(digits.take(n) =~= digits);
    } else {
        lemma_decimal_prefix(digits.drop_last(), n);
        assert(digits.drop_last().take(n) =~= digits.take(n));
    }
}

/// The number that a text of decimal digits stands for, unless it is above `limit`.
fn decimal(digits: &str, limit: u32) -> (r: Option<u32>)
    requires
        all_digits(digits@),
    ensures
        r == (if decimal_value(digits@) <= limit {
            Some(decimal_value(digits@) as u32)
        } else {
            None
        }),
{
    proof {
        assert(is_ascii(digits)) by {
            assert forall|i: int| 0 <= i < digits@.len() implies '\0' <= #[trigger] digits@[i]
                <= '\u{7f}' by {
                assert(CharClass::Digit.contains(digits@[i]));
            }
        }
        is_ascii_spec_bytes(digits);
    }
    let bytes = digits.as_bytes();
    let mut value: u64 = 0;
    let mut i: usize = 0;
    while i < bytes.len()
        invariant
            i <= bytes.len(),
            bytes@.len() == digits@.len(),
            forall|k: int| 0 <= k < bytes@.len() ==> bytes@[k] == digits@[k] as u8,
            all_digits(digits@),
            value == decimal_value(digits@.take(i as int)),
            value <= limit,
        decreases bytes.len() - i,
    {
        let digit: u64 = (bytes[i] - 48) as u64;
        proof {
            assert(CharClass::Digit.contains(digits@[i as int]));
            assert(digits@.take(i + 1).drop_last() =~= digits@.take(i as int));
            assert(digits@.take(i + 1).last() == digits@[i as int]);
            assert(digit == digit_value(digits@[i as int]));
        }
        let next: u64 = value * 10 + digit;
        if next > limit as u64 {
            proof {
                lemma_decimal_prefix(digits@, i + 1);
            }
            return None;
        }
        value = next;
        i += 1;
    }
    proof {
        assert(digits@.take(i as int) =~= digits@);
    }
    Some(value as u32)
}

/// A number: the longest run of decimal digits at the start of the text,
/// which must not be empty and must stand for no more than `limit`.
pub open spec fn spec_digits(s: Seq<char>, limit: nat) -> Result<(Seq<char>, nat), ParseError> {
    let n = run_length(s, CharClass::Digit);
    if n == 0 {
        Err(ParseError::Digit)
    } else if decimal_value(s.take(n as int)) > limit {
        Err(ParseError::MapRes)
    } else {
        Ok((s.skip(n as int), decimal_value(s.take(n as int))))
    }
}

/// A number behind a sign.
pub open spec fn spec_number(s: Seq<char>, sign: char, limit: nat) -> Result<
    (Seq<char>, nat),
    ParseError,
> {
    if s.len() == 0 || s[0] != sign {
        Err(ParseError::Tag)
    } else {
        spec_digits(s.skip(1), limit)
    }
}

/// An immediate operand: `#` and a number of at most `i32::MAX`.
pub open spec fn spec_integer_operand(s: Seq<char>) -> Result<(Seq<char>, Token), ParseError> {
    match spec_number(s, '#', i32::MAX as nat) {
        Ok((rest, value)) => Ok((rest, Token::IntegerOperand { value: value as i32 })),
        Err(e) => Err(e),
    }
}

/// The result of parsing a number, as a mathematical value.
pub open spec fn number_result_view(r: Result<(&str, u32), ParseError>) -> Result<
    (Seq<char>, nat),
    ParseError,
> {
    match r {
        Ok((rest, value)) => Ok((rest@, value as nat)),
        Err(e) => Err(e),
    }
}

/// Parses a number of at most `limit`.
pub fn number<'a>(input: &'a str, limit: u32) -> (r: Result<(&'a str, u32), ParseError>)
    ensures
        number_result_view(r) == spec_digits(input@, limit as nat),
{
    match digit1(input) {
        Ok((rest, matched)) => {
            proof {
                lemma_run_split(input@, CharClass::Digit, matched@, rest@);
            }
            match decimal(matched, limit) {
                Some(value) => Ok((rest, value)),
                None => Err(ParseError::MapRes),
            }
        },
        Err(_) => Err(ParseError::Digit),
    }
}

/// Parses an immediate operand.
pub fn integer_operand<'a>(input: &'a str) -> (r: Result<(&'a str, Token), ParseError>)
    ensures
        token_result_view(r) == spec_integer_operand(input@),
{
    proof {
        reveal_strlit("#");
    }
    match tag("#", input) {
        Ok((rest, _)) => {
            assert(input@.skip(1) =~= rest@);
            match number(rest, 2147483647) {
                Ok((rest, value)) => Ok((rest, Token::IntegerOperand { value: value as i32 })),
                Err(e) => Err(e),
            }
        },
        Err(_) => {
            assert(input@.len() == 0 || input@[0] != '#') by {
                if input@.len() > 0 && input@[0] == '#' {
                    assert("#"@ =~= input@.subrange(0, 1));
                }
            }
            Err(ParseError::Tag)
        },
    }
}

} // verus!

//! Decimal numbers as text: how a number is written and how it is read.

use vstd::prelude::*;
use vstd::string::StrSliceExecFns;
use vstd::string::StringExecFns;

verus! {

/// The character of a digit.
pub open spec fn digit_char(digit: nat) -> char {
    if digit == 0 {
        '0'
    } else if digit == 1 {
        '1'
    } else if digit == 2 {
        '2'
    } else if digit == 3 {
        '3'
    } else if digit == 4 {
        '4'
    } else if digit == 5 {
        '5'
    } else if digit == 6 {
        '6'
    } else if digit == 7 {
        '7'
    } else if digit == 8 {
        '8'
    } else {
        '9'
    }
}

/// The digit that a character writes, if it writes one.
pub open spec fn digit_of(c: char) -> Option<nat> {
    if c == '0' {
        Some(0)
    } else if c == '1' {
        Some(1)
    } else if c == '2' {
        Some(2)
    } else if c == '3' {
        Some(3)
    } else if c == '4' {
        Some(4)
    } else if c == '5' {
        Some(5)
    } else if c == '6' {
        Some(6)
    } else if c == '7' {
        Some(7)
    } else if c == '8' {
        Some(8)
    } else if c == '9' {
        Some(9)
    } else {
        None
    }
}

/// A number as it is written: in decimal, without sign or leading zeros.
pub open spec fn decimal_text(number: nat) -> Seq<char>
    decreases number,
{
    if number < 10 {
        seq![digit_char(number)]
    } else {
        decimal_text(number / 10).push(digit_char(number % 10))
    }
}

/// Whether every character of a text is a digit.
pub open spec fn all_digits(text: Seq<char>) -> bool {
    forall|at: int| 0 <= at < text.len() ==> digit_of(#[trigger] text[at]).is_some()
}

/// The number that a text of digits writes.
pub open spec fn decimal_value(digits: Seq<char>) -> nat
    decreases digits.len(),
{
    if digits.len() == 0 {
        0
    } else {
        decimal_value(digits.drop_last()) * 10 + digit_of(digits.last()).unwrap_or(0)
    }
}

/// How an unsigned number is read from a text: an optional `+`, then at
/// least one digit and nothing but digits. Leading zeros are accepted. There
/// is no number where the text is anything else or the number exceeds `max`.
pub open spec fn parsed_decimal(text: Seq<char>, max: nat) -> Option<nat> {
    let digits = if text.len() > 0 && text[0] == '+' {
        text.skip(1)
    } else {
        text
    };
    if digits.len() > 0 && all_digits(digits) && decimal_value(digits) <= max {
        Some(decimal_value(digits))
    } else {
        None
    }
}

/// A text of digits writes at least what any of its beginnings writes.
pub proof fn decimal_value_grows(digits: Seq<char>, shorter: int)
    requires
        0 <= shorter <= digits.len(),
    ensures
        decimal_value(digits.take(shorter)) <= decimal_value(digits),
    decreases digits.len(),
{
    if shorter == digits.len() {
        assert(digits.take(shorter) =~= digits);
    } else {
        decimal_value_grows(digits.drop_last(), shorter);
        assert(digits.drop_last().take(shorter) =~= digits.take(shorter));
    }
}

/// Reading what was written gives the number back.
pub proof fn written_number_reads_back(number: nat)
    ensures
        all_digits(decimal_text(number)),
        decimal_text(number).len() > 0,
        decimal_value(decimal_text(number)) == number,
        parsed_decimal(decimal_text(number), number) == Some(number),
    decreases number,
{
    let text = decimal_text(number);
    if number < 10 {
        assert(text.drop_last() =~= Seq::<char>::empty());
        assert(decimal_value(text.drop_last()) == 0);
    } else {
        written_number_reads_back(number / 10);
        assert(text.drop_last() =~= decimal_text(number / 10));
        assert(text.last() == digit_char(number % 10));
    }
    assert(text[0] != '+') by {
        assert(digit_of(text[0]).is_some());
    }
}

/// The text of one digit.
fn digit_text(digit: u64) -> (text: &'static str)
    requires
        digit < 10,
    ensures
        text@ == seq![digit_char(digit as nat)],
{
    proof {
        reveal_strlit("0");
        reveal_strlit("1");
        reveal_strlit("2");
        reveal_strlit("3");
        reveal_strlit("4");
        reveal_strlit("5");
        reveal_strlit("6");
        reveal_strlit("7");
        reveal_strlit("8");
        reveal_strlit("9");
    }
    let text = if digit == 0 {
        "0"
    } else if digit == 1 {
        "1"
    } else if digit == 2 {
        "2"
    } else if digit == 3 {
        "3"
    } else if digit == 4 {
        "4"
    } else if digit == 5 {
        "5"
    } else if digit == 6 {
        "6"
    } else if digit == 7 {
        "7"
    } else if digit == 8 {
        "8"
    } else {
        "9"
    };
    assert(text@ =~= seq![digit_char(digit as nat)]);
    text
}

/// Writes a number in decimal.
pub fn decimal(number: u64) -> (text: String)
    ensures
        text@ == decimal_text(number as nat),
    decreases number,
{
    if number < 10 {
        digit_text(number).to_owned()
    } else {
        let text = decimal(number / 10).concat(digit_text(number % 10));
        assert(text@ =~= decimal_text(number as nat));
        text
    }
}

/// The digit that a character writes, if it writes one.
fn digit(c: char) -> (digit: Option<u64>)
    ensures
        (match digit {
            Some(value) => digit_of(c) == Some(value as nat) && value < 10,
            None => digit_of(c).is_none(),
        }),
{
    if c == '0' {
        Some(0)
    } else if c == '1' {
        Some(1)
    } else if c == '2' {
        Some(2)
    } else if c == '3' {
        Some(3)
    } else if c == '4' {
        Some(4)
    } else if c == '5' {
        Some(5)
    } else if c == '6' {
        Some(6)
    } else if c == '7' {
        Some(7)
    } else if c == '8' {
        Some(8)
    } else if c == '9' {
        Some(9)
    } else {
        None
    }
}

/// Reads an unsigned number that is at most `max` from a text.
pub fn parse_decimal(text: &str, max: u64) -> (number: Option<u64>)
    ensures
        (match number {
            Some(value) => parsed_decimal(text@, max as nat) == Some(value as nat),
            None => parsed_decimal(text@, max as nat).is_none(),
        }),
{
    let length = text.unicode_len();
    let start: usize = if length > 0 && text.get_char(0) == '+' {
        1
    } else {
        0
    };
    let ghost digits = if text@.len() > 0 && text@[0] == '+' {
        text@.skip(1)
    } else {
        text@
    };
    if start == length {
        return None;
    }
    let mut value: u64 = 0;
    let mut at: usize = start;
    while at < length
        invariant
            start <= at <= length,
            length == text@.len(),
            digits == (if text@.len() > 0 && text@[0] == '+' {
                text@.skip(1)
            } else {
                text@
            }),
            digits.len() == length - start,
            forall|index: int| 0 <= index < digits.len() ==> digits[index] == text@[start + index],
            all_digits(digits.take(at - start)),
            value == decimal_value(digits.take(at - start)),
            value <= max,
        decreases length - at,
    {
        let ghost seen = digits.take(at - start);
        let ghost next = digits.take(at - start + 1);
        proof {
            assert(next.drop_last() =~= seen);
            assert(next.last() == text@[at as int]);
            decimal_value_grows(digits, at - start + 1);
        }
        match digit(text.get_char(at)) {
            None => {
                assert(!all_digits(digits)) by {
                    assert(digits[at - start] == text@[at as int]);
                    assert(digit_of(digits[at - start]).is_none());
                }
                return None;
            },
            Some(units) => {
                let longer: u128 = value as u128 * 10 + units as u128;
                if longer > max as u128 {
                    assert(decimal_value(next) > max);
                    return None;
                }
                value = longer as u64;
                assert forall|index: int| 0 <= index < next.len() implies digit_of(
                    #[trigger] next[index],
                ).is_some() by {
                    if index < seen.len() {
                        assert(next[index] == seen[index]);
                    }
                }
            },
        }
        at = at + 1;
    }
    assert(digits.take(at - start) =~= digits);
    Some(value)
}

} // verus!

//! Text for the time display.

use vstd::prelude::*;
use vstd::string::StringExecFns;
use crate::time::NANOS_PER_SEC;

verus! {

/// The character for the digit `digit`.
pub open spec fn digit_char(digit: nat) -> char
    recommends
        digit < 10,
{
    if digit == 0 {
        '0'
    } else if digit == 1 {
        '1'
    } else if digit == 2 {
        '2'
    } else if digit == 3 {
        '3'
    } else if digit == 4 {
        '4'
    } else if digit == 5 {
        '5'
    } else if digit == 6 {
        '6'
    } else if digit == 7 {
        '7'
    } else if digit == 8 {
        '8'
    } else {
        '9'
    }
}

/// `number` in decimal digits, without leading zeros.
pub open spec fn decimal(number: nat) -> Seq<char>
    decreases number,
{
    if number < 10 {
        seq![digit_char(number)]
    } else {
        decimal(number / 10).push(digit_char(number % 10))
    }
}

/// `number` in decimal digits, with a leading zero where it has one digit.
pub open spec fn two_digits(number: nat) -> Seq<char> {
    if number < 10 {
        seq!['0', digit_char(number)]
    } else {
        decimal(number)
    }
}

/// `seconds` as minutes and seconds with a colon between them, each in at
/// least two digits.
pub open spec fn clock_text(seconds: nat) -> Seq<char> {
    two_digits(seconds / 60) + seq![':'] + two_digits(seconds % 60)
}

/// The text of one digit.
fn digit_text(digit: u128) -> (text: &'static str)
    requires
        digit < 10,
    ensures
        text@ == seq![digit_char(digit as nat)],
{
    proof {
        reveal_strlit("0");
        reveal_strlit("1");
        reveal_strlit("2");
        reveal_strlit("3");
        reveal_strlit("4");
        reveal_strlit("5");
        reveal_strlit("6");
        reveal_strlit("7");
        reveal_strlit("8");
        reveal_strlit("9");
    }
    let text = if digit == 0 {
        "0"
    } else if digit == 1 {
        "1"
    } else if digit == 2 {
        "2"
    } else if digit == 3 {
        "3"
    } else if digit == 4 {
        "4"
    } else if digit == 5 {
        "5"
    } else if digit == 6 {
        "6"
    } else if digit == 7 {
        "7"
    } else if digit == 8 {
        "8"
    } else {
        "9"
    };
    assert(text@ =~= seq![digit_char(digit as nat)]);
    text
}

/// Appends `number` in decimal digits to `text`.
fn append_decimal(text: &mut String, number: u128)
    ensures
        final(text)@ == old(text)@ + decimal(number as nat),
    decreases number,
{
    if number >= 10 {
        append_decimal(text, number / 10);
    }
    text.append(digit_text(number % 10));
    assert(text@ =~= old(text)@ + decimal(number as nat));
}

/// Appends `number` in at least two decimal digits to `text`.
fn append_two_digits(text: &mut String, number: u128)
    ensures
        final(text)@ == old(text)@ + two_digits(number as nat),
{
    if number < 10 {
        text.append("0");
        proof {
            reveal_strlit("0");
        }
    }
    append_decimal(text, number);
    assert(text@ =~= old(text)@ + two_digits(number as nat));
}

/// A length of time in nanoseconds as `MM:SS`: whole minutes, a colon,
/// and the seconds left over, each in at least two digits. Parts of a second
/// are dropped.
pub fn format_time(nanos: u128) -> (text: String)
    ensures
        text@ == clock_text((nanos as nat) / (NANOS_PER_SEC as nat)),
{
    let seconds: u128 = nanos / (NANOS_PER_SEC as u128);
    let mut text = String::new();
    append_two_digits(&mut text, seconds / 60);
    text.append(":");
    proof {
        reveal_strlit(":");
    }
    append_two_digits(&mut text, seconds % 60);
    assert(text@ =~= clock_text(seconds as nat));
    text
}

} // verus!

//! Numbers as text: the digits that messages and reports are made of.

use vstd::prelude::*;

verus! {

/// The character of a decimal digit.
pub open spec fn digit_of(digit: int) -> char {
    if digit == 0 {
        '0'
    } else if digit == 1 {
        '1'
    } else if digit == 2 {
        '2'
    } else if digit == 3 {
        '3'
    } else if digit == 4 {
        '4'
    } else if digit == 5 {
        '5'
    } else if digit == 6 {
        '6'
    } else if digit == 7 {
        '7'
    } else if digit == 8 {
        '8'
    } else {
        '9'
    }
}

/// The character of a hexadecimal digit, in upper case.
pub open spec fn hex_digit_of(digit: int) -> char {
    if digit < 10 {
        digit_of(digit)
    } else if digit == 10 {
        'A'
    } else if digit == 11 {
        'B'
    } else if digit == 12 {
        'C'
    } else if digit == 13 {
        'D'
    } else if digit == 14 {
        'E'
    } else {
        'F'
    }
}

/// A natural number in decimal, without leading zeros.
pub open spec fn decimal_of(number: nat) -> Seq<char>
    decreases number,
{
    if number < 10 {
        seq![digit_of(number as int)]
    } else {
        decimal_of(number / 10).push(digit_of((number % 10) as int))
    }
}

/// An integer in decimal, with a minus sign if it is negative.
pub open spec fn signed_decimal_of(number: int) -> Seq<char> {
    if number < 0 {
        seq!['-'] + decimal_of((-number) as nat)
    } else {
        decimal_of(number as nat)
    }
}

/// A 16-bit word as four hexadecimal digits, in upper case.
pub open spec fn hex_of(word: u16) -> Seq<char> {
    seq![
        hex_digit_of(word as int / 4096),
        hex_digit_of((word as int / 256) % 16),
        hex_digit_of((word as int / 16) % 16),
        hex_digit_of(word as int % 16),
    ]
}

fn push_hex_digit(text: &mut String, digit: u16)
    requires
        digit < 16,
    ensures
        final(text)@ == old(text)@.push(hex_digit_of(digit as int)),
{
    proof {
        reveal_strlit("0");
        reveal_strlit("1");
        reveal_strlit("2");
        reveal_strlit("3");
        reveal_strlit("4");
        reveal_strlit("5");
        reveal_strlit("6");
        reveal_strlit("7");
        reveal_strlit("8");
        reveal_strlit("9");
        reveal_strlit("A");
        reveal_strlit("B");
        reveal_strlit("C");
        reveal_strlit("D");
        reveal_strlit("E");
        reveal_strlit("F");
    }
    let piece: &str = if digit == 0 {
        "0"
    } else if digit == 1 {
        "1"
    } else if digit == 2 {
        "2"
    } else if digit == 3 {
        "3"
    } else if digit == 4 {
        "4"
    } else if digit == 5 {
        "5"
    } else if digit == 6 {
        "6"
    } else if digit == 7 {
        "7"
    } else if digit == 8 {
        "8"
    } else if digit == 9 {
        "9"
    } else if digit == 10 {
        "A"
    } else if digit == 11 {
        "B"
    } else if digit == 12 {
        "C"
    } else if digit == 13 {
        "D"
    } else if digit == 14 {
        "E"
    } else {
        "F"
    };
    assert(piece@ =~= seq![hex_digit_of(digit as int)]);
    text.append(piece);
    assert(text@ =~= old(text)@.push(hex_digit_of(digit as int)));
}

/// Appends a natural number in decimal.
pub fn push_decimal(text: &mut String, number: u64)
    ensures
        final(text)@ == old(text)@ + decimal_of(number as nat),
    decreases number,
{
    if number >= 10 {
        push_decimal(text, number / 10);
    }
    push_hex_digit(text, (number % 10) as u16);
    assert(text@ =~= old(text)@ + decimal_of(number as nat));
}

/// Appends an integer in decimal, with a minus sign if it is negative.
pub fn push_signed_decimal(text: &mut String, number: i32)
    ensures
        final(text)@ == old(text)@ + signed_decimal_of(number as int),
{
    if number < 0 {
        proof {
            reveal_strlit("-");
        }
        text.append("-");
        push_decimal(text, (-(number as i64)) as u64);
        assert(text@ =~= old(text)@ + signed_decimal_of(number as int));
    } else {
        push_decimal(text, number as u64);
    }
}

/// Appends a 16-bit word as four hexadecimal digits, in upper case.
pub fn push_hex(text: &mut String, word: u16)
    ensures
        final(text)@ == old(text)@ + hex_of(word),
{
    push_hex_digit(text, word / 4096);
    push_hex_digit(text, (word / 256) % 16);
    push_hex_digit(text, (word / 16) % 16);
    push_hex_digit(text, word % 16);
    assert(text@ =~= old(text)@ + hex_of(word));
}

} // verus!

//! Numbers as text: decimal digits, zero padding, and fixed-point values
//! with two decimal places.

use vstd::prelude::*;
use vstd::string::StringExecFns;

verus! {

/// std's `String::push`, which appends one character to the string.
pub assume_specification[ String::push ](s: &mut String, c: char)
    ensures
        final(s)@ == old(s)@.push(c),
;

/// The character of a decimal digit.
pub open spec fn digit(d: int) -> char {
    if d == 0 {
        '0'
    } else if d == 1 {
        '1'
    } else if d == 2 {
        '2'
    } else if d == 3 {
        '3'
    } else if d == 4 {
        '4'
    } else if d == 5 {
        '5'
    } else if d == 6 {
        '6'
    } else if d == 7 {
        '7'
    } else if d == 8 {
        '8'
    } else {
        '9'
    }
}

/// A number in decimal, without leading zeros.
pub open spec fn decimal(n: nat) -> Seq<char>
    decreases n,
{
    if n < 10 {
        seq![digit(n as int)]
    } else {
        decimal(n / 10).push(digit((n % 10) as int))
    }
}

/// A number in decimal, with zeros in front where it has fewer than three
/// digits.
pub open spec fn three_digits(n: nat) -> Seq<char> {
    if n < 10 {
        seq!['0', '0'] + decimal(n)
    } else if n < 100 {
        seq!['0'] + decimal(n)
    } else {
        decimal(n)
    }
}

/// A count of hundredths as a number with two decimal places, its whole part
/// padded with zeros to three digits: 1235 is `012.35`.
pub open spec fn hundredths_text(hundredths: nat) -> Seq<char> {
    three_digits(hundredths / 100).push('.').push(digit((hundredths / 10 % 10) as int)).push(
        digit((hundredths % 10) as int),
    )
}

/// A number below 1000 has at most three digits, so padding brings it to
/// exactly three.
pub proof fn lemma_three_digits_len(n: nat)
    ensures
        three_digits(n).len() >= 3,
        n < 1000 ==> three_digits(n).len() == 3,
{
    reveal_with_fuel(decimal, 4);
    lemma_decimal_len(n);
}

/// A number has at least one digit, and at least three from 100 on.
pub proof fn lemma_decimal_len(n: nat)
    ensures
        decimal(n).len() >= 1,
        n >= 10 ==> decimal(n).len() >= 2,
        n >= 100 ==> decimal(n).len() >= 3,
    decreases n,
{
    if n >= 10 {
        lemma_decimal_len(n / 10);
    }
}

/// A value with two decimal places takes at least six characters, and
/// exactly six as long as it is below 1000.00.
pub proof fn law_hundredths_text_is_six_wide(hundredths: nat)
    ensures
        hundredths_text(hundredths).len() >= 6,
        hundredths < 100_000 ==> hundredths_text(hundredths).len() == 6,
{
    lemma_three_digits_len(hundredths / 100);
}

/// The character of the digit `d`.
fn digit_char(d: u8) -> (c: char)
    requires
        d < 10,
    ensures
        c == digit(d as int),
{
    match d {
        0 => '0',
        1 => '1',
        2 => '2',
        3 => '3',
        4 => '4',
        5 => '5',
        6 => '6',
        7 => '7',
        8 => '8',
        _ => '9',
    }
}

/// Appends `n` in decimal.
pub fn push_decimal(out: &mut String, n: u64)
    ensures
        final(out)@ == old(out)@ + decimal(n as nat),
    decreases n,
{
    if n >= 10 {
        push_decimal(out, n / 10);
    }
    out.push(digit_char((n % 10) as u8));
}

/// Appends a count of hundredths as a number with two decimal places, its
/// whole part padded with zeros to three digits.
pub fn push_hundredths(out: &mut String, hundredths: u64)
    ensures
        final(out)@ == old(out)@ + hundredths_text(hundredths as nat),
{
    let whole: u64 = hundredths / 100;
    if whole < 10 {
        out.append("00");
    } else if whole < 100 {
        out.append("0");
    }
    push_decimal(out, whole);
    out.push('.');
    out.push(digit_char((hundredths / 10 % 10) as u8));
    out.push(digit_char((hundredths % 10) as u8));
    proof {
        reveal_strlit("00");
        reveal_strlit("0");
        assert("00"@ =~= seq!['0', '0']);
        assert("0"@ =~= seq!['0']);
        assert(out@ =~= old(out)@ + hundredths_text(hundredths as nat));
    }
}

} // verus!

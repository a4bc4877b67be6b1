//! Natural numbers and spans of time written in decimal.

use vstd::prelude::*;

verus! {

/// The character for the decimal digit `d`.
pub open spec fn digit(d: nat) -> char {
    if d == 0 {
        '0'
    } else if d == 1 {
        '1'
    } else if d == 2 {
        '2'
    } else if d == 3 {
        '3'
    } else if d == 4 {
        '4'
    } else if d == 5 {
        '5'
    } else if d == 6 {
        '6'
    } else if d == 7 {
        '7'
    } else if d == 8 {
        '8'
    } else {
        '9'
    }
}

/// `n` written in decimal, without leading zeros.
pub open spec fn decimal(n: nat) -> Seq<char>
    decreases n,
{
    if n < 10 {
        seq![digit(n)]
    } else {
        decimal(n / 10).push(digit(n % 10))
    }
}

/// The last `places` decimal digits of `n`, with zeros in front where `n`
/// has fewer.
pub open spec fn padded_digits(n: nat, places: nat) -> Seq<char>
    decreases places,
{
    if places == 0 {
        Seq::empty()
    } else {
        padded_digits(n / 10, (places - 1) as nat).push(digit(n % 10))
    }
}

/// `digits` without the zeros at its end.
pub open spec fn without_trailing_zeros(digits: Seq<char>) -> Seq<char>
    decreases digits.len(),
{
    if digits.len() > 0 && digits.last() == '0' {
        without_trailing_zeros(digits.drop_last())
    } else {
        digits
    }
}

/// The digits behind the decimal point of `nanos` billionths: nine places,
/// without the zeros at the end; none where there is nothing behind the
/// point.
pub open spec fn fraction_digits(nanos: nat) -> Seq<char> {
    without_trailing_zeros(padded_digits(nanos, 9))
}

/// A span of `seconds` seconds and `nanos` billionths of a second, written
/// in seconds: the whole seconds, and behind a point the part of a second
/// where there is one.
pub open spec fn seconds_text(seconds: nat, nanos: nat) -> Seq<char> {
    if fraction_digits(nanos).len() == 0 {
        decimal(seconds)
    } else {
        decimal(seconds) + seq!['.'] + fraction_digits(nanos)
    }
}

/// The character for the decimal digit `d`.
pub fn digit_char(d: u8) -> (r: char)
    requires
        d < 10,
    ensures
        r == digit(d as nat),
{
    let code: u8 = 48 + d;
    code as char
}

/// `n` written in decimal, without leading zeros.
pub fn decimal_chars(n: u64) -> (r: Vec<char>)
    ensures
        r@ == decimal(n as nat),
    decreases n,
{
    if n < 10 {
        let mut out: Vec<char> = Vec::new();
        out.push(digit_char(n as u8));
        out
    } else {
        let mut out = decimal_chars(n / 10);
        out.push(digit_char((n % 10) as u8));
        out
    }
}

/// A span of whole seconds is written as the number of its seconds, with
/// nothing behind it.
pub proof fn lemma_whole_seconds(seconds: nat)
    ensures
        seconds_text(seconds, 0) == decimal(seconds),
{
    reveal_with_fuel(padded_digits, 10);
    let zeros = padded_digits(0, 9);
    assert(zeros =~= seq!['0', '0', '0', '0', '0', '0', '0', '0', '0']);
    lemma_zeros_have_no_digits_left(zeros);
}

/// Digits that are all zero leave nothing once the zeros at the end are
/// gone.
pub proof fn lemma_zeros_have_no_digits_left(digits: Seq<char>)
    requires
        forall|i: int| 0 <= i < digits.len() ==> digits[i] == '0',
    ensures
        without_trailing_zeros(digits).len() == 0,
    decreases digits.len(),
{
    if digits.len() > 0 {
        lemma_zeros_have_no_digits_left(digits.drop_last());
    }
}

/// The last `places` decimal digits of `n`, with zeros in front where `n`
/// has fewer.
pub fn padded_digit_chars(n: u64, places: u8) -> (r: Vec<char>)
    ensures
        r@ == padded_digits(n as nat, places as nat),
    decreases places,
{
    if places == 0 {
        Vec::new()
    } else {
        let mut out = padded_digit_chars(n / 10, places - 1);
        out.push(digit_char((n % 10) as u8));
        out
    }
}

/// A span of `seconds` seconds and `nanos` billionths of a second, written
/// in seconds.
pub fn seconds_chars(seconds: u64, nanos: u32) -> (r: Vec<char>)
    ensures
        r@ == seconds_text(seconds as nat, nanos as nat),
{
    let mut fraction = padded_digit_chars(nanos as u64, 9);
    let ghost all = fraction@;
    while fraction.len() > 0 && fraction[fraction.len() - 1] == '0'
        invariant
            without_trailing_zeros(all) == without_trailing_zeros(fraction@),
        decreases fraction.len(),
    {
        fraction.pop();
    }
    let mut out = decimal_chars(seconds);
    if fraction.len() > 0 {
        out.push('.');
        out.append(&mut fraction);
    }
    out
}

} // verus!

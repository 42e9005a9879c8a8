//! CSS text: decimal numbers and two-decimal fractions.
use vstd::prelude::*;

use crate::ratio::percentage_of_byte;

verus! {

/// The decimal digit `d`, as text.
pub open spec fn digit(d: int) -> Seq<char> {
    if d == 0 {
        "0"@
    } else if d == 1 {
        "1"@
    } else if d == 2 {
        "2"@
    } else if d == 3 {
        "3"@
    } else if d == 4 {
        "4"@
    } else if d == 5 {
        "5"@
    } else if d == 6 {
        "6"@
    } else if d == 7 {
        "7"@
    } else if d == 8 {
        "8"@
    } else {
        "9"@
    }
}

/// `n` written in decimal, without sign or leading zeros.
pub open spec fn decimal(n: nat) -> Seq<char>
    decreases n,
{
    if n < 10 {
        digit(n as int)
    } else {
        decimal(n / 10) + digit((n % 10) as int)
    }
}

/// The fraction `n / 255` written with two decimals, `0.00` to `1.00`.
pub open spec fn fraction_text(n: int) -> Seq<char> {
    let p = percentage_of_byte(n);
    if p >= 100 {
        "1.00"@
    } else {
        "0."@ + digit(p / 10) + digit(p % 10)
    }
}

/// The text of the decimal digit `d`.
pub fn digit_text(d: u16) -> (s: &'static str)
    requires
        d < 10,
    ensures
        s@ == digit(d as int),
{
    match d {
        0 => "0",
        1 => "1",
        2 => "2",
        3 => "3",
        4 => "4",
        5 => "5",
        6 => "6",
        7 => "7",
        8 => "8",
        _ => "9",
    }
}

/// Appends `n` in decimal to `text`.
pub fn push_decimal(text: &mut String, n: u16)
    ensures
        final(text)@ == old(text)@ + decimal(n as nat),
    decreases n,
{
    if n >= 10 {
        push_decimal(text, n / 10);
    }
    text.append(digit_text(n % 10));
    proof {
        if n < 10 {
            assert(n % 10 == n);
        }
    }
    assert(final(text)@ =~= old(text)@ + decimal(n as nat));
}

/// Appends the fraction `n / 255` with two decimals to `text`.
pub fn push_fraction(text: &mut String, n: u8)
    ensures
        final(text)@ == old(text)@ + fraction_text(n as int),
{
    let p: u16 = ((200 * (n as u32) + 255) / 510) as u16;
    assert(p == percentage_of_byte(n as int));
    if p >= 100 {
        text.append("1.00");
    } else {
        text.append("0.");
        text.append(digit_text(p / 10));
        text.append(digit_text(p % 10));
    }
    assert(final(text)@ =~= old(text)@ + fraction_text(n as int));
}

} // verus!

//! Decimal numerals: how numbers are written out in digits, and what the
//! written digits mean.

use vstd::prelude::*;
use vstd::string::*;

verus! {

/// The character that writes the digit `d`.
pub open spec fn digit(d: int) -> char {
    if d == 0 {
        '0'
    } else if d == 1 {
        '1'
    } else if d == 2 {
        '2'
    } else if d == 3 {
        '3'
    } else if d == 4 {
        '4'
    } else if d == 5 {
        '5'
    } else if d == 6 {
        '6'
    } else if d == 7 {
        '7'
    } else if d == 8 {
        '8'
    } else {
        '9'
    }
}

/// The decimal numeral of `n`, without leading zeros (`0` is written "0").
pub open spec fn decimal(n: nat) -> Seq<char>
    decreases n,
{
    if n < 10 {
        seq![digit(n as int)]
    } else {
        decimal(n / 10).push(digit((n % 10) as int))
    }
}

/// The last `width` decimal digits of `n`, with leading zeros kept.
pub open spec fn padded(n: nat, width: nat) -> Seq<char>
    decreases width,
{
    if width == 0 {
        Seq::empty()
    } else {
        padded(n / 10, (width - 1) as nat).push(digit((n % 10) as int))
    }
}

/// The digits after the decimal point of `n / 10^width`, with the zeros at the
/// end left out. Empty when `n` is zero.
pub open spec fn fraction(n: nat, width: nat) -> Seq<char>
    decreases width,
{
    if width == 0 {
        Seq::empty()
    } else if n % 10 == 0 {
        fraction(n / 10, (width - 1) as nat)
    } else {
        padded(n, width)
    }
}

/// `n / unit` rounded to the nearest integer; a value exactly half way between
/// two integers goes to the even one.
pub open spec fn round_half_even(n: nat, unit: nat) -> nat
    recommends
        unit > 0,
{
    let quotient = n / unit;
    let rest = n % unit;
    if 2 * rest > unit || (2 * rest == unit && quotient % 2 == 1) {
        quotient + 1
    } else {
        quotient
    }
}

/// Whether `c` is one of the ten digits.
pub open spec fn is_digit(c: char) -> bool {
    c == '0' || c == '1' || c == '2' || c == '3' || c == '4' || c == '5' || c == '6' || c == '7'
        || c == '8' || c == '9'
}

/// The number that the digit `c` writes.
pub open spec fn digit_value(c: char) -> nat {
    if c == '1' {
        1
    } else if c == '2' {
        2
    } else if c == '3' {
        3
    } else if c == '4' {
        4
    } else if c == '5' {
        5
    } else if c == '6' {
        6
    } else if c == '7' {
        7
    } else if c == '8' {
        8
    } else if c == '9' {
        9
    } else {
        0
    }
}

/// Whether a text is made of digits alone.
pub open spec fn all_digits(text: Seq<char>) -> bool {
    forall|i: int| 0 <= i < text.len() ==> is_digit(#[trigger] text[i])
}

/// The number that a text of digits writes in base ten.
pub open spec fn numeral_value(text: Seq<char>) -> nat
    decreases text.len(),
{
    if text.len() == 0 {
        0
    } else {
        numeral_value(text.drop_last()) * 10 + digit_value(text.last())
    }
}

/// Ten to the power of `exponent`.
pub open spec fn pow10(exponent: nat) -> nat
    decreases exponent,
{
    if exponent == 0 {
        1
    } else {
        10 * pow10((exponent - 1) as nat)
    }
}

/// A decimal numeral is made of digits, begins with a zero only where it is
/// "0", and writes the number it was made from.
pub proof fn lemma_decimal_reads_back(n: nat)
    ensures
        decimal(n).len() >= 1,
        all_digits(decimal(n)),
        numeral_value(decimal(n)) == n,
        decimal(n)[0] == '0' <==> n == 0,
    decreases n,
{
    if n < 10 {
        assert(numeral_value(decimal(n).drop_last()) == 0);
    } else {
        lemma_decimal_reads_back(n / 10);
        assert(decimal(n).drop_last() =~= decimal(n / 10));
    }
}

/// A padded numeral has just the width asked for, is made of digits, and
/// writes the number it was made from where that number fits the width.
pub proof fn lemma_padded_reads_back(n: nat, width: nat)
    ensures
        padded(n, width).len() == width,
        all_digits(padded(n, width)),
        n < pow10(width) ==> numeral_value(padded(n, width)) == n,
    decreases width,
{
    if width > 0 {
        lemma_padded_reads_back(n / 10, (width - 1) as nat);
        assert(padded(n, width).drop_last() =~= padded(n / 10, (width - 1) as nat));
    }
}

/// The digits of a fraction are at most `width` many, do not end in a zero,
/// and write the fraction exactly: filled up with zeros to the full width
/// they write `n`.
pub proof fn lemma_fraction_reads_back(n: nat, width: nat)
    requires
        n < pow10(width),
    ensures
        fraction(n, width).len() <= width,
        all_digits(fraction(n, width)),
        numeral_value(fraction(n, width)) * pow10((width - fraction(n, width).len()) as nat) == n,
        fraction(n, width).len() > 0 ==> fraction(n, width).last() != '0',
        fraction(n, width).len() == 0 <==> n == 0,
    decreases width,
{
    if width == 0 {
        assert(numeral_value(fraction(n, width)) == 0);
    } else if n % 10 == 0 {
        let shorter = fraction(n / 10, (width - 1) as nat);
        lemma_fraction_reads_back(n / 10, (width - 1) as nat);
        let filled = pow10((width - 1 - shorter.len()) as nat);
        assert(numeral_value(shorter) * (10 * filled) == (numeral_value(shorter) * filled) * 10)
            by (nonlinear_arith);
    } else {
        lemma_padded_reads_back(n, width);
        assert(numeral_value(padded(n, width)) * 1 == n);
    }
}

/// Rounding goes to a nearest integer: the rounded count of units is no more
/// than half a unit away from `n`.
pub proof fn lemma_rounding_is_nearest(n: nat, unit: nat)
    requires
        unit > 0,
    ensures
        2 * (round_half_even(n, unit) * unit - n) <= unit,
        2 * (n - round_half_even(n, unit) * unit) <= unit,
        n % unit == 0 ==> round_half_even(n, unit) * unit == n,
{
    let quotient = n / unit;
    let rest = n % unit;
    assert(n == quotient * unit + rest) by (nonlinear_arith)
        requires
            quotient == n / unit,
            rest == n % unit,
            unit > 0,
    ;
    assert((quotient + 1) * unit == quotient * unit + unit) by (nonlinear_arith);
}

/// `n / unit` to the nearest integer, ties to the even neighbour.
pub(crate) fn rounded(n: u64, unit: u64) -> (r: u64)
    requires
        unit > 0,
    ensures
        r == round_half_even(n as nat, unit as nat),
{
    let quotient: u64 = n / unit;
    let rest: u64 = n % unit;
    // `rest > unit - rest` says `2 * rest > unit` without leaving `u64`.
    if rest > unit - rest || (rest == unit - rest && quotient % 2 == 1) {
        // With a unit of one nothing is left over, so the unit is two or more.
        assert(quotient < u64::MAX) by {
            assert(n / unit <= n / 2) by (nonlinear_arith)
                requires
                    unit >= 2,
                    n >= 0,
            ;
        }
        quotient + 1
    } else {
        quotient
    }
}

/// The one-character text of a digit.
pub(crate) fn digit_text(d: u64) -> (text: &'static str)
    requires
        d < 10,
    ensures
        text@ == seq![digit(d as int)],
{
    proof {
        reveal_strlit("0");
        reveal_strlit("1");
        reveal_strlit("2");
        reveal_strlit("3");
        reveal_strlit("4");
        reveal_strlit("5");
        reveal_strlit("6");
        reveal_strlit("7");
        reveal_strlit("8");
        reveal_strlit("9");
    }
    let text = if d == 0 {
        "0"
    } else if d == 1 {
        "1"
    } else if d == 2 {
        "2"
    } else if d == 3 {
        "3"
    } else if d == 4 {
        "4"
    } else if d == 5 {
        "5"
    } else if d == 6 {
        "6"
    } else if d == 7 {
        "7"
    } else if d == 8 {
        "8"
    } else {
        "9"
    };
    text
}

/// Appends the decimal numeral of `n`.
pub fn push_decimal(out: &mut String, n: u128)
    ensures
        final(out)@ == old(out)@ + decimal(n as nat),
    decreases n,
{
    if n >= 10 {
        push_decimal(out, n / 10);
    }
    out.append(digit_text((n % 10) as u64));
}

/// Appends the last `width` digits of `n`.
pub(crate) fn push_padded(out: &mut String, n: u64, width: u8)
    ensures
        final(out)@ == old(out)@ + padded(n as nat, width as nat),
    decreases width,
{
    if width > 0 {
        push_padded(out, n / 10, width - 1);
        out.append(digit_text(n % 10));
    }
}

/// Appends the fractional digits of `n / 10^width`, without zeros at the end.
pub(crate) fn push_fraction(out: &mut String, n: u64, width: u8)
    ensures
        final(out)@ == old(out)@ + fraction(n as nat, width as nat),
    decreases width,
{
    if width == 0 {
    } else if n % 10 == 0 {
        push_fraction(out, n / 10, width - 1);
    } else {
        push_padded(out, n, width);
    }
}

} // verus!

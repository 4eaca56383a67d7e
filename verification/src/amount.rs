//! Money amounts and their renderings.
//!
//! An [`Amount`] is a signed fixed-point number with six digits after the
//! point. All arithmetic is done on integers, so every rendering is exact and
//! can be stated as a sequence of characters. A caller that holds a figure in
//! floating point rounds it to the nearest millionth to make an amount of it.

use crate::numerals::{
    all_digits, decimal, fraction, lemma_decimal_reads_back, lemma_fraction_reads_back,
    lemma_padded_reads_back, lemma_rounding_is_nearest, numeral_value, padded, pow10,
    push_decimal, push_fraction, push_padded, round_half_even, rounded,
};
use vstd::prelude::*;
use vstd::string::*;

verus! {

/// How many of the smallest steps make one whole currency unit.
pub const MICROS_PER_UNIT: u64 = 1_000_000;

/// How many of the smallest steps make one hundredth of a unit.
pub const MICROS_PER_CENT: u64 = 10_000;

/// A signed amount of money, counted in millionths of the currency unit.
#[derive(Clone, Copy, Debug, PartialEq, Eq, Structural)]
pub struct Amount {
    pub micros: i64,
}

impl Amount {
    /// The amount without its sign.
    pub open spec fn magnitude(self) -> nat {
        if self.micros < 0 {
            (-self.micros) as nat
        } else {
            self.micros as nat
        }
    }

    /// "-" for an amount below zero, nothing otherwise.
    pub open spec fn sign(self) -> Seq<char> {
        if self.micros < 0 {
            seq!['-']
        } else {
            Seq::empty()
        }
    }

    /// How many hundredths the amount comes to when it is rounded to them.
    pub open spec fn cents(self) -> nat {
        round_half_even(self.magnitude(), MICROS_PER_CENT as nat)
    }

    /// The amount rounded to hundredths, always with two digits after the point.
    pub open spec fn fixed2(self) -> Seq<char> {
        self.sign() + decimal(self.cents() / 100) + seq!['.'] + padded(self.cents() % 100, 2)
    }

    /// The amount rounded to whole units, without a decimal point.
    pub open spec fn fixed0(self) -> Seq<char> {
        self.sign() + decimal(round_half_even(self.magnitude(), MICROS_PER_UNIT as nat))
    }

    /// The amount in full: the whole part, then, unless the amount is a whole
    /// number, a point and the fractional digits without zeros at the end.
    pub open spec fn plain(self) -> Seq<char> {
        let whole = self.magnitude() / (MICROS_PER_UNIT as nat);
        let part = self.magnitude() % (MICROS_PER_UNIT as nat);
        if part == 0 {
            self.sign() + decimal(whole)
        } else {
            self.sign() + decimal(whole) + seq!['.'] + fraction(part, 6)
        }
    }

    /// The amount of `micros` millionths.
    pub fn from_micros(micros: i64) -> (amount: Amount)
        ensures
            amount.micros == micros,
    {
        Amount { micros }
    }

    /// No money at all.
    pub fn zero() -> (amount: Amount)
        ensures
            amount.micros == 0,
    {
        Amount { micros: 0 }
    }

    /// The amount without its sign, as a machine integer.
    pub fn abs_micros(&self) -> (m: u64)
        ensures
            m == self.magnitude(),
    {
        if self.micros >= 0 {
            self.micros as u64
        } else {
            let below: i64 = -(self.micros + 1);
            below as u64 + 1
        }
    }

    /// Renders the amount with exactly two decimals, as in "12.30".
    pub fn to_fixed2(&self) -> (text: String)
        ensures
            text@ == self.fixed2(),
    {
        let cents: u64 = rounded(self.abs_micros(), MICROS_PER_CENT);
        let mut text = String::new();
        if self.micros < 0 {
            text.append("-");
            proof {
                reveal_strlit("-");
            }
        }
        push_decimal(&mut text, (cents / 100) as u128);
        text.append(".");
        proof {
            reveal_strlit(".");
        }
        push_padded(&mut text, cents % 100, 2);
        text
    }

    /// Renders the amount rounded to a whole number, as in "100".
    pub fn to_fixed0(&self) -> (text: String)
        ensures
            text@ == self.fixed0(),
    {
        let units: u64 = rounded(self.abs_micros(), MICROS_PER_UNIT);
        let mut text = String::new();
        if self.micros < 0 {
            text.append("-");
            proof {
                reveal_strlit("-");
            }
        }
        push_decimal(&mut text, units as u128);
        text
    }

    /// Renders the amount in full, as in "1.5" or "50".
    pub fn to_plain(&self) -> (text: String)
        ensures
            text@ == self.plain(),
    {
        let magnitude: u64 = self.abs_micros();
        let whole: u64 = magnitude / MICROS_PER_UNIT;
        let part: u64 = magnitude % MICROS_PER_UNIT;
        let mut text = String::new();
        if self.micros < 0 {
            text.append("-");
            proof {
                reveal_strlit("-");
            }
        }
        push_decimal(&mut text, whole as u128);
        if part != 0 {
            text.append(".");
            proof {
                reveal_strlit(".");
            }
            push_fraction(&mut text, part, 6);
        }
        text
    }
}

impl Amount {
    /// What [`Amount::fixed2`] writes around the point are digits, two of
    /// them after it, and they write the amount to the nearest hundredth.
    pub proof fn lemma_fixed2_reads_back(self)
        ensures
            all_digits(decimal(self.cents() / 100)),
            all_digits(padded(self.cents() % 100, 2)),
            padded(self.cents() % 100, 2).len() == 2,
            numeral_value(decimal(self.cents() / 100)) * 100 + numeral_value(
                padded(self.cents() % 100, 2),
            ) == self.cents(),
            2 * (self.cents() * MICROS_PER_CENT - self.magnitude()) <= MICROS_PER_CENT,
            2 * (self.magnitude() - self.cents() * MICROS_PER_CENT) <= MICROS_PER_CENT,
    {
        lemma_decimal_reads_back(self.cents() / 100);
        lemma_padded_reads_back(self.cents() % 100, 2);
        lemma_rounding_is_nearest(self.magnitude(), MICROS_PER_CENT as nat);
        assert(pow10(2) == 100) by {
            reveal_with_fuel(pow10, 3);
        }
    }

    /// What [`Amount::plain`] writes is the amount itself, with nothing
    /// rounded away: the whole units, and after the point the millionths
    /// without the zeros at their end.
    pub proof fn lemma_plain_reads_back(self)
        ensures
            ({
                let whole = decimal(self.magnitude() / (MICROS_PER_UNIT as nat));
                let part = fraction(self.magnitude() % (MICROS_PER_UNIT as nat), 6);
                &&& self.plain() == if part.len() == 0 {
                    self.sign() + whole
                } else {
                    self.sign() + whole + seq!['.'] + part
                }
                &&& all_digits(whole)
                &&& all_digits(part)
                &&& part.len() <= 6
                &&& numeral_value(whole) * MICROS_PER_UNIT + numeral_value(part) * pow10(
                    (6 - part.len()) as nat,
                ) == self.magnitude()
            }),
    {
        let units = self.magnitude() / (MICROS_PER_UNIT as nat);
        let rest = self.magnitude() % (MICROS_PER_UNIT as nat);
        assert(pow10(6) == 1_000_000) by {
            reveal_with_fuel(pow10, 7);
        }
        lemma_decimal_reads_back(units);
        lemma_fraction_reads_back(rest, 6);
    }
}

/// How an amount of nothing is written.
pub proof fn lemma_zero_renderings()
    ensures
        (Amount { micros: 0 }).fixed2() == "0.00"@,
        (Amount { micros: 0 }).fixed0() == "0"@,
        (Amount { micros: 0 }).plain() == "0"@,
{
    reveal_strlit("0.00");
    reveal_strlit("0");
    reveal_with_fuel(padded, 3);
}

} // verus!

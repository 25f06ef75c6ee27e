//! Decimal text of integers and of amounts of money.

use vstd::prelude::*;
use vstd::string::*;
use crate::money::Money;

verus! {

/// The character of a decimal digit; `'0'` for anything that is no digit.
pub open spec fn digit_char(digit: int) -> char {
    if digit == 1 {
        '1'
    } else if digit == 2 {
        '2'
    } else if digit == 3 {
        '3'
    } else if digit == 4 {
        '4'
    } else if digit == 5 {
        '5'
    } else if digit == 6 {
        '6'
    } else if digit == 7 {
        '7'
    } else if digit == 8 {
        '8'
    } else if digit == 9 {
        '9'
    } else {
        '0'
    }
}

/// The decimal digits of a natural number, most significant first, without
/// leading zeros; zero is `"0"`.
pub open spec fn nat_text(n: nat) -> Seq<char>
    decreases n,
{
    if n < 10 {
        seq![digit_char(n as int)]
    } else {
        nat_text(n / 10).push(digit_char((n % 10) as int))
    }
}

/// The decimal text of an integer: a minus sign where it is negative, then
/// the digits of its magnitude.
pub open spec fn int_text(n: int) -> Seq<char> {
    if n < 0 {
        seq!['-'] + nat_text((-n) as nat)
    } else {
        nat_text(n as nat)
    }
}

/// The digits of a decimal fraction, up to its last digit that is not zero.
/// `part` counts units of the last place and `weight` is the weight, in
/// those units, of the first place: with a weight of 100000, a part of 50000
/// is `"05"`. A part of zero has no digits.
pub open spec fn fraction_text(part: nat, weight: nat) -> Seq<char>
    decreases weight,
{
    if part == 0 || weight == 0 {
        Seq::empty()
    } else {
        seq![digit_char((part / weight) as int)] + fraction_text(part % weight, weight / 10)
    }
}

/// The decimal text of an amount given in millionths: the sign, the whole
/// currency units and, unless the amount is whole, a point and the fraction
/// without trailing zeros. So 18000000 is `"18"`, 10500000 is `"10.5"` and
/// -250000 is `"-0.25"`.
pub open spec fn money_text(micros: int) -> Seq<char> {
    let magnitude: int = if micros < 0 { -micros } else { micros };
    let sign: Seq<char> = if micros < 0 { seq!['-'] } else { Seq::empty() };
    let whole: Seq<char> = nat_text((magnitude / 1_000_000) as nat);
    let part: nat = (magnitude % 1_000_000) as nat;
    if part == 0 {
        sign + whole
    } else {
        sign + whole + seq!['.'] + fraction_text(part, 100_000)
    }
}

/// The one-character text of a decimal digit.
fn digit_str(digit: u8) -> (text: &'static str)
    requires
        digit < 10,
    ensures
        text@ == seq![digit_char(digit as int)],
{
    proof {
        reveal_strlit("0");
        reveal_strlit("1");
        reveal_strlit("2");
        reveal_strlit("3");
        reveal_strlit("4");
        reveal_strlit("5");
        reveal_strlit("6");
        reveal_strlit("7");
        reveal_strlit("8");
        reveal_strlit("9");
    }
    let text: &'static str = match digit {
        1 => "1",
        2 => "2",
        3 => "3",
        4 => "4",
        5 => "5",
        6 => "6",
        7 => "7",
        8 => "8",
        9 => "9",
        _ => "0",
    };
    assert(text@ =~= seq![digit_char(digit as int)]);
    text
}

/// Appends the decimal digits of `n` to `out`.
pub fn push_nat(out: &mut String, n: u128)
    ensures
        final(out)@ == old(out)@ + nat_text(n as nat),
    decreases n,
{
    if n >= 10 {
        push_nat(out, n / 10);
    }
    let last: u8 = (n % 10) as u8;
    out.append(digit_str(last));
    assert(out@ =~= old(out)@ + nat_text(n as nat));
}

/// The magnitude of a signed integer.
fn magnitude(n: i128) -> (m: u128)
    ensures
        m == (if n < 0 { -n } else { n as int }),
{
    if n < 0 {
        let below: i128 = -(n + 1);
        below as u128 + 1
    } else {
        n as u128
    }
}

/// Appends the decimal text of `n` to `out`.
pub fn push_int(out: &mut String, n: i128)
    ensures
        final(out)@ == old(out)@ + int_text(n as int),
{
    if n < 0 {
        proof {
            reveal_strlit("-");
        }
        out.append("-");
    }
    push_nat(out, magnitude(n));
    assert(out@ =~= old(out)@ + int_text(n as int));
}

/// Whether `weight` is the weight of one of the six decimal places of a
/// millionth, counted in millionths.
spec fn is_place(weight: int) -> bool {
    weight == 1 || weight == 10 || weight == 100 || weight == 1_000 || weight == 10_000
        || weight == 100_000
}

/// Appends the digits of a decimal fraction to `out`, stopping after the
/// last digit that is not zero.
fn push_fraction(out: &mut String, part: u128, weight: u128)
    requires
        (is_place(weight as int) && part < weight * 10) || (weight == 0 && part == 0),
    ensures
        final(out)@ == old(out)@ + fraction_text(part as nat, weight as nat),
    decreases weight,
{
    if part != 0 && weight != 0 {
        assert(part / weight < 10) by (nonlinear_arith)
            requires
                0 < weight,
                part < weight * 10,
        ;
        let first: u8 = (part / weight) as u8;
        out.append(digit_str(first));
        push_fraction(out, part % weight, weight / 10);
    }
    assert(out@ =~= old(out)@ + fraction_text(part as nat, weight as nat));
}

impl Money {
    /// This amount as decimal text.
    pub fn to_text(&self) -> (text: String)
        ensures
            text@ == money_text(self@),
    {
        let mut text: String = String::new();
        if self.micros < 0 {
            proof {
                reveal_strlit("-");
            }
            text.append("-");
        }
        let size: u128 = magnitude(self.micros);
        push_nat(&mut text, size / 1_000_000);
        let part: u128 = size % 1_000_000;
        if part != 0 {
            proof {
                reveal_strlit(".");
            }
            text.append(".");
            push_fraction(&mut text, part, 100_000);
        }
        assert(text@ =~= money_text(self@));
        text
    }
}

} // verus!

//! Decimal numerals as ASCII bytes.

use vstd::prelude::*;

verus! {

/// The ASCII digit for `d`, for `d` below ten.
pub open spec fn digit_char(d: nat) -> u8 {
    (48 + d) as u8
}

/// The decimal numeral of `n`: its digits in base ten, most significant
/// first, as ASCII bytes. Zero is written `0`; no other numeral starts with
/// `0`.
pub open spec fn decimal_text(n: nat) -> Seq<u8>
    decreases n,
{
    if n < 10 {
        seq![digit_char(n)]
    } else {
        decimal_text(n / 10).push(digit_char(n % 10))
    }
}

/// The number that a sequence of ASCII digits denotes in base ten.
pub open spec fn decimal_value(text: Seq<u8>) -> nat
    decreases text.len(),
{
    if text.len() == 0 {
        0
    } else {
        decimal_value(text.drop_last()) * 10 + (text.last() - 48) as nat
    }
}

/// Every byte of a numeral is an ASCII digit, a numeral is never empty, and
/// only the numeral of zero starts with the digit zero.
pub proof fn law_decimal_shape(n: nat)
    ensures
        decimal_text(n).len() >= 1,
        forall|i: int| 0 <= i < decimal_text(n).len() ==> 48 <= #[trigger] decimal_text(n)[i] <= 57,
        decimal_text(n)[0] == 48 <==> n == 0,
    decreases n,
{
    if n >= 10 {
        law_decimal_shape(n / 10);
    }
}

/// Reading a numeral gives back the number it was written for, so distinct
/// numbers have distinct numerals.
pub proof fn law_decimal_round_trip(n: nat)
    ensures
        decimal_value(decimal_text(n)) == n,
    decreases n,
{
    if n < 10 {
        assert(decimal_text(n).drop_last() =~= Seq::<u8>::empty());
        assert(decimal_value(decimal_text(n).drop_last()) == 0);
    } else {
        law_decimal_round_trip(n / 10);
        assert(decimal_text(n).drop_last() =~= decimal_text(n / 10));
    }
}

/// Distinct numbers have distinct numerals.
pub proof fn law_decimal_injective(m: nat, n: nat)
    requires
        decimal_text(m) == decimal_text(n),
    ensures
        m == n,
{
    law_decimal_round_trip(m);
    law_decimal_round_trip(n);
}

/// The decimal numeral of `n`.
pub fn decimal_digits(n: u64) -> (text: Vec<u8>)
    ensures
        text@ == decimal_text(n as nat),
    decreases n,
{
    if n < 10 {
        let mut text: Vec<u8> = Vec::new();
        text.push(48 + n as u8);
        assert(text@ =~= decimal_text(n as nat));
        text
    } else {
        let mut text = decimal_digits(n / 10);
        text.push(48 + (n % 10) as u8);
        text
    }
}

} // verus!

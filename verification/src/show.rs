//! Decimal rendering of integers, as the Show operators and diagnostics
//! display them, proved against a direct recursive definition.

use vstd::prelude::*;

verus! {

/// The single decimal digit character for `d`.
pub open spec fn digit_seq(d: nat) -> Seq<char> {
    if d == 0 {
        "0"@
    } else if d == 1 {
        "1"@
    } else if d == 2 {
        "2"@
    } else if d == 3 {
        "3"@
    } else if d == 4 {
        "4"@
    } else if d == 5 {
        "5"@
    } else if d == 6 {
        "6"@
    } else if d == 7 {
        "7"@
    } else if d == 8 {
        "8"@
    } else {
        "9"@
    }
}

/// The decimal rendering of a natural number, most significant digit first,
/// with no leading zero except for zero itself.
pub open spec fn dec_rep_nat(n: nat) -> Seq<char>
    decreases n,
{
    if n < 10 {
        digit_seq(n)
    } else {
        dec_rep_nat(n / 10) + digit_seq(n % 10)
    }
}

/// The decimal rendering of a signed integer: a minus sign before the
/// rendering of the magnitude when negative.
pub open spec fn dec_rep_i64(v: i64) -> Seq<char> {
    if v >= 0 {
        dec_rep_nat(v as nat)
    } else {
        "-"@ + dec_rep_nat((-(v as int)) as nat)
    }
}

fn digit_str(d: u64) -> (s: &'static str)
    requires
        d < 10,
    ensures
        s@ == digit_seq(d as nat),
{
    if d == 0 {
        "0"
    } else if d == 1 {
        "1"
    } else if d == 2 {
        "2"
    } else if d == 3 {
        "3"
    } else if d == 4 {
        "4"
    } else if d == 5 {
        "5"
    } else if d == 6 {
        "6"
    } else if d == 7 {
        "7"
    } else if d == 8 {
        "8"
    } else {
        "9"
    }
}

/// Renders an unsigned integer in decimal.
pub fn decimal_u64(n: u64) -> (s: String)
    ensures
        s@ == dec_rep_nat(n as nat),
    decreases n,
{
    if n < 10 {
        String::from_str(digit_str(n))
    } else {
        let q = decimal_u64(n / 10);
        q.concat(digit_str(n % 10))
    }
}

/// Renders a signed integer in decimal.
pub fn decimal_i64(v: i64) -> (s: String)
    ensures
        s@ == dec_rep_i64(v),
{
    if v >= 0 {
        decimal_u64(v as u64)
    } else {
        let m: u64 = if v == i64::MIN {
            9223372036854775808
        } else {
            (-v) as u64
        };
        let digits = decimal_u64(m);
        String::from_str("-").concat(digits.as_str())
    }
}

} // verus!

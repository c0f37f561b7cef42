//! Decimal text of `i32` values, as identifiers travel in paths and messages.

use vstd::prelude::*;

verus! {

/// The character for a decimal digit `d < 10`.
pub open spec fn digit_char(d: nat) -> char {
    seq!['0', '1', '2', '3', '4', '5', '6', '7', '8', '9'][d as int]
}

/// The value of a decimal digit character.
pub open spec fn digit_value(c: char) -> int {
    (c as u32) - ('0' as u32)
}

/// Whether `c` is one of `0` to `9`.
pub open spec fn is_digit(c: char) -> bool {
    '0' <= c && c <= '9'
}

/// The shortest decimal form of a natural number.
pub open spec fn nat_decimal(n: nat) -> Seq<char>
    decreases n,
{
    if n < 10 {
        seq![digit_char(n)]
    } else {
        nat_decimal(n / 10).push(digit_char(n % 10))
    }
}

/// The decimal form of an integer: a `-` for negative values, then the
/// digits of its magnitude without leading zeros.
pub open spec fn int_decimal(i: int) -> Seq<char> {
    if i < 0 {
        seq!['-'] + nat_decimal((-i) as nat)
    } else {
        nat_decimal(i as nat)
    }
}

/// The value of a nonempty run of decimal digits.
pub open spec fn digits_value(s: Seq<char>) -> int
    decreases s.len(),
{
    if s.len() == 0 {
        0
    } else {
        digits_value(s.drop_last()) * 10 + digit_value(s.last())
    }
}

/// What `s` denotes as an `i32` literal: an optional `+` or `-`, then one or
/// more decimal digits, whose value lies in the range of `i32`.
pub open spec fn i32_literal_value(s: Seq<char>) -> Option<int> {
    let signed = s.len() > 0 && (s[0] == '-' || s[0] == '+');
    let body = if signed { s.drop_first() } else { s };
    let magnitude = digits_value(body);
    let v = if s.len() > 0 && s[0] == '-' { -magnitude } else { magnitude };
    if body.len() > 0 && (forall|i: int| 0 <= i < body.len() ==> is_digit(#[trigger] body[i]))
        && i32::MIN <= v <= i32::MAX {
        Some(v)
    } else {
        None
    }
}

/// Relies on `ToString::to_string` through `i32`'s `Display`, which writes
/// the decimal form: a `-` for negative values, no leading zeros.
#[verifier::external_body]
pub(crate) fn i32_to_decimal(v: i32) -> (r: String)
    ensures
        r@ == int_decimal(v as int),
{
    v.to_string()
}

/// Relies on `str::parse::<i32>` (`i32`'s `FromStr`), which accepts an
/// optional `+` or `-` followed by decimal digits, and refuses a value out
/// of range.
#[verifier::external_body]
pub(crate) fn parse_i32(s: &str) -> (r: Option<i32>)
    ensures
        match r {
            Some(v) => i32_literal_value(s@) == Some(v as int),
            None => i32_literal_value(s@) is None,
        },
{
    s.parse::<i32>().ok()
}

} // verus!

use vstd::prelude::*;
use std::num::ParseIntError;

verus! {

/// An ASCII decimal digit.
pub open spec fn is_digit(c: char) -> bool {
    '0' <= c <= '9'
}

/// One or more decimal digits and nothing else.
pub open spec fn all_digits(s: Seq<char>) -> bool {
    s.len() > 0 && forall|i: int| 0 <= i < s.len() ==> is_digit(#[trigger] s[i])
}

/// The number that a run of decimal digits writes.
pub open spec fn digits_value(s: Seq<char>) -> nat
    decreases s.len(),
{
    if s.len() == 0 {
        0
    } else {
        digits_value(s.drop_last()) * 10 + ((s.last() as u32) - ('0' as u32)) as nat
    }
}

/// The integer that a text writes in decimal: an optional `+` (or `-`,
/// where the type is signed) and then digits only.
pub open spec fn int_text(s: Seq<char>, signed: bool) -> Option<int> {
    if s.len() > 0 && s[0] == '+' {
        if all_digits(s.drop_first()) {
            Some(digits_value(s.drop_first()) as int)
        } else {
            None
        }
    } else if signed && s.len() > 0 && s[0] == '-' {
        if all_digits(s.drop_first()) {
            Some(-(digits_value(s.drop_first()) as int))
        } else {
            None
        }
    } else if all_digits(s) {
        Some(digits_value(s) as int)
    } else {
        None
    }
}

/// The integer that a text writes, where it lies in `lo..=hi`.
pub open spec fn int_in(s: Seq<char>, signed: bool, lo: int, hi: int) -> Option<int> {
    match int_text(s, signed) {
        Some(x) => if lo <= x <= hi {
            Some(x)
        } else {
            None
        },
        None => None,
    }
}

/// Relies on `u8`'s `FromStr`: an optional `+` sign and then ASCII
/// decimal digits only, whose value must fit in `u8`.
#[verifier::external_body]
pub(crate) fn parse_u8(s: &str) -> (r: Result<u8, ParseIntError>)
    ensures
        r is Ok <==> int_in(s@, false, u8::MIN as int, u8::MAX as int) is Some,
        r matches Ok(x) ==> int_in(s@, false, u8::MIN as int, u8::MAX as int) == Some(x as int),
{
    s.parse::<u8>()
}

/// Relies on `u16`'s `FromStr`: an optional `+` sign and then ASCII
/// decimal digits only, whose value must fit in `u16`.
#[verifier::external_body]
pub(crate) fn parse_u16(s: &str) -> (r: Result<u16, ParseIntError>)
    ensures
        r is Ok <==> int_in(s@, false, u16::MIN as int, u16::MAX as int) is Some,
        r matches Ok(x) ==> int_in(s@, false, u16::MIN as int, u16::MAX as int) == Some(x as int),
{
    s.parse::<u16>()
}

/// Relies on `u32`'s `FromStr`: an optional `+` sign and then ASCII
/// decimal digits only, whose value must fit in `u32`.
#[verifier::external_body]
pub(crate) fn parse_u32(s: &str) -> (r: Result<u32, ParseIntError>)
    ensures
        r is Ok <==> int_in(s@, false, u32::MIN as int, u32::MAX as int) is Some,
        r matches Ok(x) ==> int_in(s@, false, u32::MIN as int, u32::MAX as int) == Some(x as int),
{
    s.parse::<u32>()
}

/// Relies on `u64`'s `FromStr`: an optional `+` sign and then ASCII
/// decimal digits only, whose value must fit in `u64`.
#[verifier::external_body]
pub(crate) fn parse_u64(s: &str) -> (r: Result<u64, ParseIntError>)
    ensures
        r is Ok <==> int_in(s@, false, u64::MIN as int, u64::MAX as int) is Some,
        r matches Ok(x) ==> int_in(s@, false, u64::MIN as int, u64::MAX as int) == Some(x as int),
{
    s.parse::<u64>()
}

/// Relies on `u128`'s `FromStr`: an optional `+` sign and then ASCII
/// decimal digits only, whose value must fit in `u128`.
#[verifier::external_body]
pub(crate) fn parse_u128(s: &str) -> (r: Result<u128, ParseIntError>)
    ensures
        r is Ok <==> int_in(s@, false, u128::MIN as int, u128::MAX as int) is Some,
        r matches Ok(x) ==> int_in(s@, false, u128::MIN as int, u128::MAX as int) == Some(x as int),
{
    s.parse::<u128>()
}

/// Relies on `i8`'s `FromStr`: an optional `+` or `-` sign and then ASCII
/// decimal digits only, whose value must fit in `i8`.
#[verifier::external_body]
pub(crate) fn parse_i8(s: &str) -> (r: Result<i8, ParseIntError>)
    ensures
        r is Ok <==> int_in(s@, true, i8::MIN as int, i8::MAX as int) is Some,
        r matches Ok(x) ==> int_in(s@, true, i8::MIN as int, i8::MAX as int) == Some(x as int),
{
    s.parse::<i8>()
}

/// Relies on `i16`'s `FromStr`: an optional `+` or `-` sign and then ASCII
/// decimal digits only, whose value must fit in `i16`.
#[verifier::external_body]
pub(crate) fn parse_i16(s: &str) -> (r: Result<i16, ParseIntError>)
    ensures
        r is Ok <==> int_in(s@, true, i16::MIN as int, i16::MAX as int) is Some,
        r matches Ok(x) ==> int_in(s@, true, i16::MIN as int, i16::MAX as int) == Some(x as int),
{
    s.parse::<i16>()
}

/// Relies on `i32`'s `FromStr`: an optional `+` or `-` sign and then ASCII
/// decimal digits only, whose value must fit in `i32`.
#[verifier::external_body]
pub(crate) fn parse_i32(s: &str) -> (r: Result<i32, ParseIntError>)
    ensures
        r is Ok <==> int_in(s@, true, i32::MIN as int, i32::MAX as int) is Some,
        r matches Ok(x) ==> int_in(s@, true, i32::MIN as int, i32::MAX as int) == Some(x as int),
{
    s.parse::<i32>()
}

/// Relies on `i64`'s `FromStr`: an optional `+` or `-` sign and then ASCII
/// decimal digits only, whose value must fit in `i64`.
#[verifier::external_body]
pub(crate) fn parse_i64(s: &str) -> (r: Result<i64, ParseIntError>)
    ensures
        r is Ok <==> int_in(s@, true, i64::MIN as int, i64::MAX as int) is Some,
        r matches Ok(x) ==> int_in(s@, true, i64::MIN as int, i64::MAX as int) == Some(x as int),
{
    s.parse::<i64>()
}

/// Relies on `i128`'s `FromStr`: an optional `+` or `-` sign and then ASCII
/// decimal digits only, whose value must fit in `i128`.
#[verifier::external_body]
pub(crate) fn parse_i128(s: &str) -> (r: Result<i128, ParseIntError>)
    ensures
        r is Ok <==> int_in(s@, true, i128::MIN as int, i128::MAX as int) is Some,
        r matches Ok(x) ==> int_in(s@, true, i128::MIN as int, i128::MAX as int) == Some(x as int),
{
    s.parse::<i128>()
}

} // verus!

//! How the textual forms of integers, booleans and characters read.
use vstd::prelude::*;

verus! {

/// An ASCII decimal digit.
pub open spec fn is_digit(c: char) -> bool {
    '0' <= c && c <= '9'
}

/// A non-empty run of decimal digits.
pub open spec fn all_digits(s: Seq<char>) -> bool {
    s.len() > 0 && forall|i: int| 0 <= i < s.len() ==> is_digit(#[trigger] s[i])
}

/// The value of a run of decimal digits, most significant first.
pub open spec fn digits_value(s: Seq<char>) -> int
    decreases s.len(),
{
    if s.len() == 0 {
        0
    } else {
        digits_value(s.drop_last()) * 10 + (s.last() as int - '0' as int)
    }
}

/// The integer that `s` writes: an optional `+` (or, where `signed`, `-`) followed by one or
/// more decimal digits, and nothing else.
pub open spec fn decimal_value(s: Seq<char>, signed: bool) -> Option<int> {
    if s.len() > 1 && s[0] == '+' && all_digits(s.drop_first()) {
        Some(digits_value(s.drop_first()))
    } else if signed && s.len() > 1 && s[0] == '-' && all_digits(s.drop_first()) {
        Some(-digits_value(s.drop_first()))
    } else if all_digits(s) {
        Some(digits_value(s))
    } else {
        None
    }
}

/// `s` writes an integer within `min..=max`.
pub open spec fn int_in_range(s: Seq<char>, signed: bool, min: int, max: int) -> bool {
    decimal_value(s, signed) matches Some(n) && min <= n && n <= max
}

/// The boolean that `s` writes: exactly `true` or `false`.
pub open spec fn bool_value(s: Seq<char>) -> Option<bool> {
    if s == seq!['t', 'r', 'u', 'e'] {
        Some(true)
    } else if s == seq!['f', 'a', 'l', 's', 'e'] {
        Some(false)
    } else {
        None
    }
}

/// Relies on `bool::from_str`: only `true` and `false` are accepted.
#[verifier::external_body]
pub(crate) fn parse_bool(s: &str) -> (r: Result<bool, std::str::ParseBoolError>)
    ensures
        r is Ok <==> bool_value(s@) is Some,
        r matches Ok(v) ==> bool_value(s@) == Some(v),
{
    s.parse::<bool>()
}

/// Relies on `char::from_str`: accepted exactly when the text is one character.
#[verifier::external_body]
pub(crate) fn parse_char(s: &str) -> (r: Result<char, std::char::ParseCharError>)
    ensures
        r is Ok <==> s@.len() == 1,
        r matches Ok(c) ==> s@ == seq![c],
{
    s.parse::<char>()
}

/// Relies on `u8::from_str`: an optional sign and decimal digits, within the range of `u8`.
#[verifier::external_body]
pub(crate) fn parse_u8(s: &str) -> (r: Result<u8, std::num::ParseIntError>)
    ensures
        r is Ok <==> int_in_range(s@, false, u8::MIN as int, u8::MAX as int),
        r matches Ok(v) ==> decimal_value(s@, false) == Some(v as int),
{
    s.parse::<u8>()
}

/// Relies on `u16::from_str`: an optional sign and decimal digits, within the range of `u16`.
#[verifier::external_body]
pub(crate) fn parse_u16(s: &str) -> (r: Result<u16, std::num::ParseIntError>)
    ensures
        r is Ok <==> int_in_range(s@, false, u16::MIN as int, u16::MAX as int),
        r matches Ok(v) ==> decimal_value(s@, false) == Some(v as int),
{
    s.parse::<u16>()
}

/// Relies on `u32::from_str`: an optional sign and decimal digits, within the range of `u32`.
#[verifier::external_body]
pub(crate) fn parse_u32(s: &str) -> (r: Result<u32, std::num::ParseIntError>)
    ensures
        r is Ok <==> int_in_range(s@, false, u32::MIN as int, u32::MAX as int),
        r matches Ok(v) ==> decimal_value(s@, false) == Some(v as int),
{
    s.parse::<u32>()
}

/// Relies on `u64::from_str`: an optional sign and decimal digits, within the range of `u64`.
#[verifier::external_body]
pub(crate) fn parse_u64(s: &str) -> (r: Result<u64, std::num::ParseIntError>)
    ensures
        r is Ok <==> int_in_range(s@, false, u64::MIN as int, u64::MAX as int),
        r matches Ok(v) ==> decimal_value(s@, false) == Some(v as int),
{
    s.parse::<u64>()
}

/// Relies on `u128::from_str`: an optional sign and decimal digits, within the range of `u128`.
#[verifier::external_body]
pub(crate) fn parse_u128(s: &str) -> (r: Result<u128, std::num::ParseIntError>)
    ensures
        r is Ok <==> int_in_range(s@, false, u128::MIN as int, u128::MAX as int),
        r matches Ok(v) ==> decimal_value(s@, false) == Some(v as int),
{
    s.parse::<u128>()
}

/// Relies on `i8::from_str`: an optional sign and decimal digits, within the range of `i8`.
#[verifier::external_body]
pub(crate) fn parse_i8(s: &str) -> (r: Result<i8, std::num::ParseIntError>)
    ensures
        r is Ok <==> int_in_range(s@, true, i8::MIN as int, i8::MAX as int),
        r matches Ok(v) ==> decimal_value(s@, true) == Some(v as int),
{
    s.parse::<i8>()
}

/// Relies on `i16::from_str`: an optional sign and decimal digits, within the range of `i16`.
#[verifier::external_body]
pub(crate) fn parse_i16(s: &str) -> (r: Result<i16, std::num::ParseIntError>)
    ensures
        r is Ok <==> int_in_range(s@, true, i16::MIN as int, i16::MAX as int),
        r matches Ok(v) ==> decimal_value(s@, true) == Some(v as int),
{
    s.parse::<i16>()
}

/// Relies on `i32::from_str`: an optional sign and decimal digits, within the range of `i32`.
#[verifier::external_body]
pub(crate) fn parse_i32(s: &str) -> (r: Result<i32, std::num::ParseIntError>)
    ensures
        r is Ok <==> int_in_range(s@, true, i32::MIN as int, i32::MAX as int),
        r matches Ok(v) ==> decimal_value(s@, true) == Some(v as int),
{
    s.parse::<i32>()
}

/// Relies on `i64::from_str`: an optional sign and decimal digits, within the range of `i64`.
#[verifier::external_body]
pub(crate) fn parse_i64(s: &str) -> (r: Result<i64, std::num::ParseIntError>)
    ensures
        r is Ok <==> int_in_range(s@, true, i64::MIN as int, i64::MAX as int),
        r matches Ok(v) ==> decimal_value(s@, true) == Some(v as int),
{
    s.parse::<i64>()
}

/// Relies on `i128::from_str`: an optional sign and decimal digits, within the range of `i128`.
#[verifier::external_body]
pub(crate) fn parse_i128(s: &str) -> (r: Result<i128, std::num::ParseIntError>)
    ensures
        r is Ok <==> int_in_range(s@, true, i128::MIN as int, i128::MAX as int),
        r matches Ok(v) ==> decimal_value(s@, true) == Some(v as int),
{
    s.parse::<i128>()
}

} // verus!

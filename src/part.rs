//! Conversion rules from the raw bytes of one part to a typed value.
use vstd::prelude::*;
use vstd::utf8::{decode_utf8, valid_utf8};
use vstd::slice::slice_to_vec;

use crate::text::{
    bool_value, decimal_value, int_in_range, parse_bool, parse_char, parse_i128, parse_i16,
    parse_i32, parse_i64, parse_i8, parse_u128, parse_u16, parse_u32, parse_u64, parse_u8,
};

verus! {

/// The error of `String::from_utf8`, carried as it is.
#[verifier::external_type_specification]
#[verifier::external_body]
pub struct ExFromUtf8Error(std::string::FromUtf8Error);

/// The error of integer `from_str`, carried as it is.
#[verifier::external_type_specification]
#[verifier::external_body]
pub struct ExParseIntError(std::num::ParseIntError);

/// The error of float `from_str`, carried as it is.
#[verifier::external_type_specification]
#[verifier::external_body]
pub struct ExParseFloatError(std::num::ParseFloatError);

/// The error of `bool::from_str`, carried as it is.
#[verifier::external_type_specification]
#[verifier::external_body]
pub struct ExParseBoolError(std::str::ParseBoolError);

/// The error of `char::from_str`, carried as it is.
#[verifier::external_type_specification]
#[verifier::external_body]
pub struct ExParseCharError(std::char::ParseCharError);

/// `bytes::Bytes`, a shared byte buffer; what it holds is `bytes_held`.
#[verifier::external_type_specification]
#[verifier::external_body]
pub struct ExBytes(bytes::Bytes);

/// `serde_json::Value`, a parsed JSON document, carried as it is.
#[verifier::external_type_specification]
#[verifier::external_body]
pub struct ExJsonValue(serde_json::Value);

/// `serde_json::Error`, returned to the caller unmodified.
#[verifier::external_type_specification]
#[verifier::external_body]
pub struct ExJsonError(serde_json::Error);

/// The bytes that a `Bytes` buffer holds.
pub uninterp spec fn bytes_held(b: bytes::Bytes) -> Seq<u8>;

/// What `serde_json` makes of the bytes: the JSON document they hold, or its error for them.
pub uninterp spec fn json_parse(b: Seq<u8>) -> Result<serde_json::Value, serde_json::Error>;

/// Relies on `bytes::Bytes::copy_from_slice`: the buffer holds a copy of the slice.
#[verifier::external_body]
fn bytes_copy(body: &[u8]) -> (r: bytes::Bytes)
    ensures
        bytes_held(r) == body@,
{
    bytes::Bytes::copy_from_slice(body)
}

/// Relies on `serde_json::from_slice`: the result depends on the bytes alone.
#[verifier::external_body]
fn json_value(body: &[u8]) -> (r: Result<serde_json::Value, serde_json::Error>)
    ensures
        r == json_parse(body@),
{
    serde_json::from_slice::<serde_json::Value>(body)
}

/// Relies on `String::from_utf8`: it succeeds exactly on valid UTF-8, and the string then
/// holds the decoded characters.
#[verifier::external_body]
fn utf8_string(body: &[u8]) -> (r: Result<String, std::string::FromUtf8Error>)
    ensures
        r is Ok <==> valid_utf8(body@),
        r matches Ok(s) ==> s@ == decode_utf8(body@),
{
    String::from_utf8(body.to_vec())
}

/// Errors that can occur while reading an integer.
#[derive(Debug)]
pub enum DeserializeIntError {
    /// The bytes are not valid UTF-8.
    ConvertionToString(std::string::FromUtf8Error),
    /// The text is not an integer of the target type.
    ConvertionToInt(std::num::ParseIntError),
}

/// Errors that can occur while reading a floating-point number.
#[derive(Debug)]
pub enum DeserializeFloatError {
    /// The bytes are not valid UTF-8.
    ConvertionToString(std::string::FromUtf8Error),
    /// The text is not a floating-point number.
    ConvertionToFloat(std::num::ParseFloatError),
}

/// Errors that can occur while reading a boolean.
#[derive(Debug)]
pub enum DeserializeBoolError {
    /// The bytes are not valid UTF-8.
    ConvertionToString(std::string::FromUtf8Error),
    /// The text is neither `true` nor `false`.
    ConvertionToFloat(std::str::ParseBoolError),
}

/// Errors that can occur while reading a character.
#[derive(Debug)]
pub enum DeserializeCharError {
    /// The bytes are not valid UTF-8.
    ConvertionToString(std::string::FromUtf8Error),
    /// The text is not exactly one character.
    ConvertionToChar(std::char::ParseCharError),
}

/// A value read from a part holding a JSON document. The conversion is given for
/// `serde_json::Value`, since verified code cannot call through serde's `Deserialize` bound;
/// a typed value is had from it with `serde_json::from_value`.
#[derive(Debug)]
pub struct Json<T>(pub T);

/// The outcome of reading an integer in `min..=max` from `body`, with the value widened to
/// `int`: the UTF-8 stage fails first, then the parse.
pub open spec fn int_converts(
    body: Seq<u8>,
    signed: bool,
    min: int,
    max: int,
    r: Result<int, DeserializeIntError>,
) -> bool {
    match r {
        Ok(v) => valid_utf8(body) && decimal_value(decode_utf8(body), signed) == Some(v) && min
            <= v && v <= max,
        Err(DeserializeIntError::ConvertionToString(_)) => !valid_utf8(body),
        Err(DeserializeIntError::ConvertionToInt(_)) => valid_utf8(body) && !int_in_range(
            decode_utf8(body),
            signed,
            min,
            max,
        ),
    }
}

/// The error given when a requested part is absent and the target type has no fallback.
#[derive(Debug)]
pub struct ValueNotFoundError(pub String);

/// Rules for turning the bytes of one part into a value of `Self`.
pub trait FromMultiPartPart<'a>: Sized {
    /// The error returned when the bytes cannot be converted.
    type PartError;

    /// Holds when `r` is the outcome of converting `body`.
    spec fn converts(body: Seq<u8>, r: Result<Self, Self::PartError>) -> bool;

    /// What an absent part yields: `None` to fail with a not-found error, `Some(v)` to
    /// succeed with `v`.
    spec fn absent_value() -> Option<Self>;

    /// Convert the bytes of a part.
    fn from_bytes(body: &'a [u8]) -> (r: Result<Self, Self::PartError>)
        ensures
            Self::converts(body@, r),
    ;

    /// Called when no part is named `key`.
    fn handle_absent_value(key: &str) -> (r: Result<Self, ValueNotFoundError>)
        ensures
            match Self::absent_value() {
                None => r matches Err(e) && e.0@ == key@,
                Some(v) => r == Ok::<Self, ValueNotFoundError>(v),
            },
    ;
}

/// The not-found error for `key`.
fn not_found<T>(key: &str) -> (r: Result<T, ValueNotFoundError>)
    ensures
        r matches Err(e) && e.0@ == key@,
{
    Err(ValueNotFoundError(key.to_owned()))
}

impl<'a> FromMultiPartPart<'a> for String {
    type PartError = std::string::FromUtf8Error;

    open spec fn converts(body: Seq<u8>, r: Result<String, std::string::FromUtf8Error>) -> bool {
        match r {
            Ok(s) => valid_utf8(body) && s@ == decode_utf8(body),
            Err(_) => !valid_utf8(body),
        }
    }

    open spec fn absent_value() -> Option<String> {
        None
    }

    fn from_bytes(body: &'a [u8]) -> (r: Result<String, std::string::FromUtf8Error>) {
        utf8_string(body)
    }

    fn handle_absent_value(key: &str) -> (r: Result<String, ValueNotFoundError>) {
        not_found(key)
    }
}

impl<'a> FromMultiPartPart<'a> for Vec<u8> {
    type PartError = std::convert::Infallible;

    open spec fn converts(body: Seq<u8>, r: Result<Vec<u8>, std::convert::Infallible>) -> bool {
        r matches Ok(v) && v@ == body
    }

    open spec fn absent_value() -> Option<Vec<u8>> {
        None
    }

    fn from_bytes(body: &'a [u8]) -> (r: Result<Vec<u8>, std::convert::Infallible>) {
        Ok(slice_to_vec(body))
    }

    fn handle_absent_value(key: &str) -> (r: Result<Vec<u8>, ValueNotFoundError>) {
        not_found(key)
    }
}

impl<'a> FromMultiPartPart<'a> for &'a [u8] {
    type PartError = std::convert::Infallible;

    open spec fn converts(body: Seq<u8>, r: Result<&'a [u8], std::convert::Infallible>) -> bool {
        r matches Ok(v) && v@ == body
    }

    open spec fn absent_value() -> Option<&'a [u8]> {
        None
    }

    fn from_bytes(body: &'a [u8]) -> (r: Result<&'a [u8], std::convert::Infallible>) {
        Ok(body)
    }

    fn handle_absent_value(key: &str) -> (r: Result<&'a [u8], ValueNotFoundError>) {
        not_found(key)
    }
}

impl<'a> FromMultiPartPart<'a> for bytes::Bytes {
    type PartError = std::convert::Infallible;

    open spec fn converts(body: Seq<u8>, r: Result<bytes::Bytes, std::convert::Infallible>) -> bool {
        r matches Ok(v) && bytes_held(v) == body
    }

    open spec fn absent_value() -> Option<bytes::Bytes> {
        None
    }

    fn from_bytes(body: &'a [u8]) -> (r: Result<bytes::Bytes, std::convert::Infallible>) {
        Ok(bytes_copy(body))
    }

    fn handle_absent_value(key: &str) -> (r: Result<bytes::Bytes, ValueNotFoundError>) {
        not_found(key)
    }
}

/// An optional value converts as its inner type does, and an absent part gives `None`.
impl<'a, T: FromMultiPartPart<'a>> FromMultiPartPart<'a> for Option<T> {
    type PartError = T::PartError;

    open spec fn converts(body: Seq<u8>, r: Result<Option<T>, T::PartError>) -> bool {
        match r {
            Ok(Some(v)) => T::converts(body, Ok(v)),
            Ok(None) => false,
            Err(e) => T::converts(body, Err(e)),
        }
    }

    open spec fn absent_value() -> Option<Option<T>> {
        Some(None)
    }

    fn from_bytes(body: &'a [u8]) -> (r: Result<Option<T>, T::PartError>) {
        match T::from_bytes(body) {
            Ok(v) => Ok(Some(v)),
            Err(e) => Err(e),
        }
    }

    fn handle_absent_value(key: &str) -> (r: Result<Option<T>, ValueNotFoundError>) {
        Ok(None)
    }
}

impl<'a> FromMultiPartPart<'a> for Json<serde_json::Value> {
    type PartError = serde_json::Error;

    open spec fn converts(body: Seq<u8>, r: Result<Json<serde_json::Value>, serde_json::Error>) -> bool {
        match r {
            Ok(j) => json_parse(body) == Ok::<serde_json::Value, serde_json::Error>(j.0),
            Err(e) => json_parse(body) == Err::<serde_json::Value, serde_json::Error>(e),
        }
    }

    open spec fn absent_value() -> Option<Json<serde_json::Value>> {
        None
    }

    fn from_bytes(body: &'a [u8]) -> (r: Result<Json<serde_json::Value>, serde_json::Error>) {
        match json_value(body) {
            Ok(v) => Ok(Json(v)),
            Err(e) => Err(e),
        }
    }

    fn handle_absent_value(key: &str) -> (r: Result<Json<serde_json::Value>, ValueNotFoundError>) {
        not_found(key)
    }
}

impl<'a> FromMultiPartPart<'a> for bool {
    type PartError = DeserializeBoolError;

    open spec fn converts(body: Seq<u8>, r: Result<bool, DeserializeBoolError>) -> bool {
        match r {
            Ok(v) => valid_utf8(body) && bool_value(decode_utf8(body)) == Some(v),
            Err(DeserializeBoolError::ConvertionToString(_)) => !valid_utf8(body),
            Err(DeserializeBoolError::ConvertionToFloat(_)) => valid_utf8(body) && bool_value(
                decode_utf8(body),
            ) is None,
        }
    }

    open spec fn absent_value() -> Option<bool> {
        None
    }

    fn from_bytes(body: &'a [u8]) -> (r: Result<bool, DeserializeBoolError>) {
        match utf8_string(body) {
            Err(e) => Err(DeserializeBoolError::ConvertionToString(e)),
            Ok(s) => match parse_bool(s.as_str()) {
                Ok(v) => Ok(v),
                Err(e) => Err(DeserializeBoolError::ConvertionToFloat(e)),
            },
        }
    }

    fn handle_absent_value(key: &str) -> (r: Result<bool, ValueNotFoundError>) {
        not_found(key)
    }
}

impl<'a> FromMultiPartPart<'a> for char {
    type PartError = DeserializeCharError;

    open spec fn converts(body: Seq<u8>, r: Result<char, DeserializeCharError>) -> bool {
        match r {
            Ok(c) => valid_utf8(body) && decode_utf8(body) == seq![c],
            Err(DeserializeCharError::ConvertionToString(_)) => !valid_utf8(body),
            Err(DeserializeCharError::ConvertionToChar(_)) => valid_utf8(body) && decode_utf8(
                body,
            ).len() != 1,
        }
    }

    open spec fn absent_value() -> Option<char> {
        None
    }

    fn from_bytes(body: &'a [u8]) -> (r: Result<char, DeserializeCharError>) {
        match utf8_string(body) {
            Err(e) => Err(DeserializeCharError::ConvertionToString(e)),
            Ok(s) => match parse_char(s.as_str()) {
                Ok(c) => Ok(c),
                Err(e) => Err(DeserializeCharError::ConvertionToChar(e)),
            },
        }
    }

    fn handle_absent_value(key: &str) -> (r: Result<char, ValueNotFoundError>) {
        not_found(key)
    }
}

impl<'a> FromMultiPartPart<'a> for u8 {
    type PartError = DeserializeIntError;

    open spec fn converts(body: Seq<u8>, r: Result<u8, DeserializeIntError>) -> bool {
        match r {
            Ok(v) => int_converts(body, false, u8::MIN as int, u8::MAX as int, Ok(v as int)),
            Err(e) => int_converts(body, false, u8::MIN as int, u8::MAX as int, Err(e)),
        }
    }

    open spec fn absent_value() -> Option<u8> {
        None
    }

    fn from_bytes(body: &'a [u8]) -> (r: Result<u8, DeserializeIntError>) {
        match utf8_string(body) {
            Err(e) => Err(DeserializeIntError::ConvertionToString(e)),
            Ok(s) => match parse_u8(s.as_str()) {
                Ok(v) => Ok(v),
                Err(e) => Err(DeserializeIntError::ConvertionToInt(e)),
            },
        }
    }

    fn handle_absent_value(key: &str) -> (r: Result<u8, ValueNotFoundError>) {
        not_found(key)
    }
}

impl<'a> FromMultiPartPart<'a> for u16 {
    type PartError = DeserializeIntError;

    open spec fn converts(body: Seq<u8>, r: Result<u16, DeserializeIntError>) -> bool {
        match r {
            Ok(v) => int_converts(body, false, u16::MIN as int, u16::MAX as int, Ok(v as int)),
            Err(e) => int_converts(body, false, u16::MIN as int, u16::MAX as int, Err(e)),
        }
    }

    open spec fn absent_value() -> Option<u16> {
        None
    }

    fn from_bytes(body: &'a [u8]) -> (r: Result<u16, DeserializeIntError>) {
        match utf8_string(body) {
            Err(e) => Err(DeserializeIntError::ConvertionToString(e)),
            Ok(s) => match parse_u16(s.as_str()) {
                Ok(v) => Ok(v),
                Err(e) => Err(DeserializeIntError::ConvertionToInt(e)),
            },
        }
    }

    fn handle_absent_value(key: &str) -> (r: Result<u16, ValueNotFoundError>) {
        not_found(key)
    }
}

impl<'a> FromMultiPartPart<'a> for u32 {
    type PartError = DeserializeIntError;

    open spec fn converts(body: Seq<u8>, r: Result<u32, DeserializeIntError>) -> bool {
        match r {
            Ok(v) => int_converts(body, false, u32::MIN as int, u32::MAX as int, Ok(v as int)),
            Err(e) => int_converts(body, false, u32::MIN as int, u32::MAX as int, Err(e)),
        }
    }

    open spec fn absent_value() -> Option<u32> {
        None
    }

    fn from_bytes(body: &'a [u8]) -> (r: Result<u32, DeserializeIntError>) {
        match utf8_string(body) {
            Err(e) => Err(DeserializeIntError::ConvertionToString(e)),
            Ok(s) => match parse_u32(s.as_str()) {
                Ok(v) => Ok(v),
                Err(e) => Err(DeserializeIntError::ConvertionToInt(e)),
            },
        }
    }

    fn handle_absent_value(key: &str) -> (r: Result<u32, ValueNotFoundError>) {
        not_found(key)
    }
}

impl<'a> FromMultiPartPart<'a> for u64 {
    type PartError = DeserializeIntError;

    open spec fn converts(body: Seq<u8>, r: Result<u64, DeserializeIntError>) -> bool {
        match r {
            Ok(v) => int_converts(body, false, u64::MIN as int, u64::MAX as int, Ok(v as int)),
            Err(e) => int_converts(body, false, u64::MIN as int, u64::MAX as int, Err(e)),
        }
    }

    open spec fn absent_value() -> Option<u64> {
        None
    }

    fn from_bytes(body: &'a [u8]) -> (r: Result<u64, DeserializeIntError>) {
        match utf8_string(body) {
            Err(e) => Err(DeserializeIntError::ConvertionToString(e)),
            Ok(s) => match parse_u64(s.as_str()) {
                Ok(v) => Ok(v),
                Err(e) => Err(DeserializeIntError::ConvertionToInt(e)),
            },
        }
    }

    fn handle_absent_value(key: &str) -> (r: Result<u64, ValueNotFoundError>) {
        not_found(key)
    }
}

impl<'a> FromMultiPartPart<'a> for u128 {
    type PartError = DeserializeIntError;

    open spec fn converts(body: Seq<u8>, r: Result<u128, DeserializeIntError>) -> bool {
        match r {
            Ok(v) => int_converts(body, false, u128::MIN as int, u128::MAX as int, Ok(v as int)),
            Err(e) => int_converts(body, false, u128::MIN as int, u128::MAX as int, Err(e)),
        }
    }

    open spec fn absent_value() -> Option<u128> {
        None
    }

    fn from_bytes(body: &'a [u8]) -> (r: Result<u128, DeserializeIntError>) {
        match utf8_string(body) {
            Err(e) => Err(DeserializeIntError::ConvertionToString(e)),
            Ok(s) => match parse_u128(s.as_str()) {
                Ok(v) => Ok(v),
                Err(e) => Err(DeserializeIntError::ConvertionToInt(e)),
            },
        }
    }

    fn handle_absent_value(key: &str) -> (r: Result<u128, ValueNotFoundError>) {
        not_found(key)
    }
}

impl<'a> FromMultiPartPart<'a> for i8 {
    type PartError = DeserializeIntError;

    open spec fn converts(body: Seq<u8>, r: Result<i8, DeserializeIntError>) -> bool {
        match r {
            Ok(v) => int_converts(body, true, i8::MIN as int, i8::MAX as int, Ok(v as int)),
            Err(e) => int_converts(body, true, i8::MIN as int, i8::MAX as int, Err(e)),
        }
    }

    open spec fn absent_value() -> Option<i8> {
        None
    }

    fn from_bytes(body: &'a [u8]) -> (r: Result<i8, DeserializeIntError>) {
        match utf8_string(body) {
            Err(e) => Err(DeserializeIntError::ConvertionToString(e)),
            Ok(s) => match parse_i8(s.as_str()) {
                Ok(v) => Ok(v),
                Err(e) => Err(DeserializeIntError::ConvertionToInt(e)),
            },
        }
    }

    fn handle_absent_value(key: &str) -> (r: Result<i8, ValueNotFoundError>) {
        not_found(key)
    }
}

impl<'a> FromMultiPartPart<'a> for i16 {
    type PartError = DeserializeIntError;

    open spec fn converts(body: Seq<u8>, r: Result<i16, DeserializeIntError>) -> bool {
        match r {
            Ok(v) => int_converts(body, true, i16::MIN as int, i16::MAX as int, Ok(v as int)),
            Err(e) => int_converts(body, true, i16::MIN as int, i16::MAX as int, Err(e)),
        }
    }

    open spec fn absent_value() -> Option<i16> {
        None
    }

    fn from_bytes(body: &'a [u8]) -> (r: Result<i16, DeserializeIntError>) {
        match utf8_string(body) {
            Err(e) => Err(DeserializeIntError::ConvertionToString(e)),
            Ok(s) => match parse_i16(s.as_str()) {
                Ok(v) => Ok(v),
                Err(e) => Err(DeserializeIntError::ConvertionToInt(e)),
            },
        }
    }

    fn handle_absent_value(key: &str) -> (r: Result<i16, ValueNotFoundError>) {
        not_found(key)
    }
}

impl<'a> FromMultiPartPart<'a> for i32 {
    type PartError = DeserializeIntError;

    open spec fn converts(body: Seq<u8>, r: Result<i32, DeserializeIntError>) -> bool {
        match r {
            Ok(v) => int_converts(body, true, i32::MIN as int, i32::MAX as int, Ok(v as int)),
            Err(e) => int_converts(body, true, i32::MIN as int, i32::MAX as int, Err(e)),
        }
    }

    open spec fn absent_value() -> Option<i32> {
        None
    }

    fn from_bytes(body: &'a [u8]) -> (r: Result<i32, DeserializeIntError>) {
        match utf8_string(body) {
            Err(e) => Err(DeserializeIntError::ConvertionToString(e)),
            Ok(s) => match parse_i32(s.as_str()) {
                Ok(v) => Ok(v),
                Err(e) => Err(DeserializeIntError::ConvertionToInt(e)),
            },
        }
    }

    fn handle_absent_value(key: &str) -> (r: Result<i32, ValueNotFoundError>) {
        not_found(key)
    }
}

impl<'a> FromMultiPartPart<'a> for i64 {
    type PartError = DeserializeIntError;

    open spec fn converts(body: Seq<u8>, r: Result<i64, DeserializeIntError>) -> bool {
        match r {
            Ok(v) => int_converts(body, true, i64::MIN as int, i64::MAX as int, Ok(v as int)),
            Err(e) => int_converts(body, true, i64::MIN as int, i64::MAX as int, Err(e)),
        }
    }

    open spec fn absent_value() -> Option<i64> {
        None
    }

    fn from_bytes(body: &'a [u8]) -> (r: Result<i64, DeserializeIntError>) {
        match utf8_string(body) {
            Err(e) => Err(DeserializeIntError::ConvertionToString(e)),
            Ok(s) => match parse_i64(s.as_str()) {
                Ok(v) => Ok(v),
                Err(e) => Err(DeserializeIntError::ConvertionToInt(e)),
            },
        }
    }

    fn handle_absent_value(key: &str) -> (r: Result<i64, ValueNotFoundError>) {
        not_found(key)
    }
}

impl<'a> FromMultiPartPart<'a> for i128 {
    type PartError = DeserializeIntError;

    open spec fn converts(body: Seq<u8>, r: Result<i128, DeserializeIntError>) -> bool {
        match r {
            Ok(v) => int_converts(body, true, i128::MIN as int, i128::MAX as int, Ok(v as int)),
            Err(e) => int_converts(body, true, i128::MIN as int, i128::MAX as int, Err(e)),
        }
    }

    open spec fn absent_value() -> Option<i128> {
        None
    }

    fn from_bytes(body: &'a [u8]) -> (r: Result<i128, DeserializeIntError>) {
        match utf8_string(body) {
            Err(e) => Err(DeserializeIntError::ConvertionToString(e)),
            Ok(s) => match parse_i128(s.as_str()) {
                Ok(v) => Ok(v),
                Err(e) => Err(DeserializeIntError::ConvertionToInt(e)),
            },
        }
    }

    fn handle_absent_value(key: &str) -> (r: Result<i128, ValueNotFoundError>) {
        not_found(key)
    }
}

} // verus!

use bytes::Bytes;
use poem_typed_multipart::part::{
    DeserializeBoolError, DeserializeCharError, DeserializeIntError, FromMultiPartPart,
    ValueNotFoundError,
};

#[test]
fn string_from_valid_utf8() {
    let s = <String as FromMultiPartPart>::from_bytes("héllo".as_bytes()).unwrap();
    assert_eq!(s, "héllo");
}

#[test]
fn string_from_empty_bytes() {
    let s = <String as FromMultiPartPart>::from_bytes(b"").unwrap();
    assert_eq!(s, "");
}

#[test]
fn string_from_invalid_utf8_fails() {
    assert!(<String as FromMultiPartPart>::from_bytes(&[0xff, 0xfe]).is_err());
}

#[test]
fn integers_parse_decimal_text() {
    assert_eq!(<u8 as FromMultiPartPart>::from_bytes(b"255").unwrap(), 255);
    assert_eq!(<u16 as FromMultiPartPart>::from_bytes(b"+65535").unwrap(), 65535);
    assert_eq!(<u32 as FromMultiPartPart>::from_bytes(b"42").unwrap(), 42);
    assert_eq!(<u64 as FromMultiPartPart>::from_bytes(b"18446744073709551615").unwrap(), u64::MAX);
    assert_eq!(<u128 as FromMultiPartPart>::from_bytes(b"007").unwrap(), 7);
    assert_eq!(<i8 as FromMultiPartPart>::from_bytes(b"-128").unwrap(), -128);
    assert_eq!(<i16 as FromMultiPartPart>::from_bytes(b"-1").unwrap(), -1);
    assert_eq!(<i32 as FromMultiPartPart>::from_bytes(b"+12").unwrap(), 12);
    assert_eq!(<i64 as FromMultiPartPart>::from_bytes(b"-9000").unwrap(), -9000);
    assert_eq!(<i128 as FromMultiPartPart>::from_bytes(b"0").unwrap(), 0);
}

#[test]
fn integer_out_of_range_is_a_parse_error() {
    assert!(matches!(
        <u8 as FromMultiPartPart>::from_bytes(b"256"),
        Err(DeserializeIntError::ConvertionToInt(_))
    ));
    assert!(matches!(
        <i8 as FromMultiPartPart>::from_bytes(b"-129"),
        Err(DeserializeIntError::ConvertionToInt(_))
    ));
}

#[test]
fn integer_text_errors_are_parse_errors() {
    for text in [&b""[..], b"+", b"-", b"-1", b" 1", b"1_000", b"12a"] {
        assert!(matches!(
            <u32 as FromMultiPartPart>::from_bytes(text),
            Err(DeserializeIntError::ConvertionToInt(_))
        ));
    }
}

#[test]
fn integer_from_invalid_utf8_is_a_utf8_error() {
    assert!(matches!(
        <u32 as FromMultiPartPart>::from_bytes(&[0x34, 0xff]),
        Err(DeserializeIntError::ConvertionToString(_))
    ));
    assert!(matches!(
        <i64 as FromMultiPartPart>::from_bytes(&[0xc0]),
        Err(DeserializeIntError::ConvertionToString(_))
    ));
}

#[test]
fn booleans_parse_true_and_false_only() {
    assert!(<bool as FromMultiPartPart>::from_bytes(b"true").unwrap());
    assert!(!<bool as FromMultiPartPart>::from_bytes(b"false").unwrap());
    assert!(matches!(
        <bool as FromMultiPartPart>::from_bytes(b"True"),
        Err(DeserializeBoolError::ConvertionToFloat(_))
    ));
    assert!(matches!(
        <bool as FromMultiPartPart>::from_bytes(&[0xff]),
        Err(DeserializeBoolError::ConvertionToString(_))
    ));
}

#[test]
fn chars_parse_exactly_one_character() {
    assert_eq!(<char as FromMultiPartPart>::from_bytes("é".as_bytes()).unwrap(), 'é');
    assert!(matches!(
        <char as FromMultiPartPart>::from_bytes(b"ab"),
        Err(DeserializeCharError::ConvertionToChar(_))
    ));
    assert!(matches!(
        <char as FromMultiPartPart>::from_bytes(b""),
        Err(DeserializeCharError::ConvertionToChar(_))
    ));
    assert!(matches!(
        <char as FromMultiPartPart>::from_bytes(&[0xe9]),
        Err(DeserializeCharError::ConvertionToString(_))
    ));
}

#[test]
fn raw_bytes_are_kept_as_they_are() {
    let raw: &[u8] = &[0, 0xff, 7];
    assert_eq!(<Vec<u8> as FromMultiPartPart>::from_bytes(raw).unwrap(), vec![0, 0xff, 7]);
    assert_eq!(<&[u8] as FromMultiPartPart>::from_bytes(raw).unwrap(), raw);
    assert_eq!(
        <Bytes as FromMultiPartPart>::from_bytes(raw).unwrap(),
        Bytes::from_static(&[0, 0xff, 7])
    );
}

#[test]
fn optional_converts_as_its_inner_type() {
    assert_eq!(<Option<u32> as FromMultiPartPart>::from_bytes(b"5").unwrap(), Some(5));
    assert!(matches!(
        <Option<u32> as FromMultiPartPart>::from_bytes(b"x"),
        Err(DeserializeIntError::ConvertionToInt(_))
    ));
}

#[test]
fn absent_value_policies() {
    let r: Result<u32, ValueNotFoundError> = <u32 as FromMultiPartPart>::handle_absent_value("id");
    assert_eq!(r.unwrap_err().0, "id");
    let r = <String as FromMultiPartPart>::handle_absent_value("title");
    assert_eq!(r.unwrap_err().0, "title");
    let r = <Option<String> as FromMultiPartPart>::handle_absent_value("title");
    assert_eq!(r.unwrap(), None);
}

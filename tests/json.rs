use poem_typed_multipart::part::{FromMultiPartPart, Json};
use poem_typed_multipart::map::{MultiPartMap, MultiPartMapError};

#[test]
fn valid_json_decodes_to_its_value() {
    let Json(v) = <Json<serde_json::Value> as FromMultiPartPart>::from_bytes(br#"{"a": [1, true]}"#).unwrap();
    let expected: serde_json::Value = serde_json::from_str(r#"{"a": [1, true]}"#).unwrap();
    assert_eq!(v, expected);
    assert_eq!(v["a"][0].as_u64(), Some(1));
}

#[test]
fn malformed_json_keeps_the_deserializer_message() {
    let body = br#"{"a": "#;
    let err = <Json<serde_json::Value> as FromMultiPartPart>::from_bytes(body).unwrap_err();
    let direct = serde_json::from_slice::<serde_json::Value>(body).unwrap_err();
    assert_eq!(err.to_string(), direct.to_string());
}

#[test]
fn json_error_through_the_map_is_unchanged() {
    let body = b"[1, 2".to_vec();
    let direct = serde_json::from_slice::<serde_json::Value>(&body).unwrap_err();
    let map = MultiPartMap::from_parts(vec![(Some("doc".to_string()), body)]);
    match map.get::<Json<serde_json::Value>>("doc") {
        Err(e @ MultiPartMapError::DecodeError(..)) => {
            assert_eq!(e.status(), 400);
            match e {
                MultiPartMapError::DecodeError(name, err) => {
                    assert_eq!(name, "doc");
                    assert_eq!(err.to_string(), direct.to_string());
                    assert_eq!(err.line(), direct.line());
                    assert_eq!(err.column(), direct.column());
                }
                MultiPartMapError::NotFound(_) => unreachable!(),
            }
        }
        other => panic!("unexpected {other:?}"),
    }
}

#[test]
fn json_part_through_the_map_gives_the_document() {
    let map = MultiPartMap::from_parts(vec![(Some("doc".to_string()), b"[1, 2]".to_vec())]);
    let Json(v) = map.get::<Json<serde_json::Value>>("doc").unwrap();
    assert_eq!(v, serde_json::from_str::<serde_json::Value>("[1, 2]").unwrap());
}

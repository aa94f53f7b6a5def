use std::string::FromUtf8Error;

use poem_typed_multipart::codegen::{
    field_key, plan_fields, FieldDecl, RecordData, ShapeError,
};
use poem_typed_multipart::map::{MultiPartMap, MultiPartMapError};
use poem_typed_multipart::part::DeserializeIntError;
use poem_typed_multipart::FromMultiPart;

#[derive(Debug, PartialEq)]
struct Body {
    id: u32,
    title: String,
}

#[derive(Debug)]
enum BodyRejection {
    Id(MultiPartMapError<DeserializeIntError>),
    Title(MultiPartMapError<FromUtf8Error>),
}

impl FromMultiPart for Body {
    type Rejection = BodyRejection;

    fn decode(map: MultiPartMap) -> Result<Self, BodyRejection> {
        let id = map.get("id").map_err(BodyRejection::Id)?;
        let title = map.get("title").map_err(BodyRejection::Title)?;
        Ok(Body { id, title })
    }
}

fn part(name: &str, value: &[u8]) -> (Option<String>, Vec<u8>) {
    (Some(name.to_string()), value.to_vec())
}

#[test]
fn text_parts_round_trip_into_a_record() {
    let map = MultiPartMap::from_parts(vec![part("id", b"42"), part("title", b"Hello")]);
    assert_eq!(Body::decode(map).unwrap(), Body { id: 42, title: "Hello".to_string() });
}

#[test]
fn part_order_does_not_matter() {
    let map = MultiPartMap::from_parts(vec![part("title", b"Hello"), part("id", b"42")]);
    assert_eq!(Body::decode(map).unwrap(), Body { id: 42, title: "Hello".to_string() });
}

#[test]
fn first_failing_field_is_reported() {
    let map = MultiPartMap::from_parts(vec![part("title", b"ok")]);
    match Body::decode(map) {
        Err(BodyRejection::Id(MultiPartMapError::NotFound(e))) => assert_eq!(e.0, "id"),
        other => panic!("unexpected {other:?}"),
    }
    let map = MultiPartMap::from_parts(vec![part("id", b"x")]);
    assert!(matches!(Body::decode(map), Err(BodyRejection::Id(MultiPartMapError::DecodeError(_, _)))));
}

#[test]
fn renamed_field_reads_its_renamed_part() {
    let data = RecordData::Struct(vec![
        FieldDecl { ident: Some("name".to_string()), rename: Some("full_name".to_string()) },
        FieldDecl { ident: Some("age".to_string()), rename: None },
    ]);
    let plan = plan_fields(&data).unwrap();
    assert_eq!(plan.len(), 2);
    assert_eq!(plan[0].ident, "name");
    assert_eq!(plan[0].key, "full_name");
    assert_eq!(plan[1].ident, "age");
    assert_eq!(plan[1].key, "age");
    let map = MultiPartMap::from_parts(vec![part("name", b"wrong"), part("full_name", b"Ada Lovelace")]);
    assert_eq!(map.get::<String>(&plan[0].key).unwrap(), "Ada Lovelace");
}

#[test]
fn field_key_prefers_the_rename() {
    assert_eq!(field_key(&"a".to_string(), &Some("b".to_string())), "b");
    assert_eq!(field_key(&"a".to_string(), &None), "a");
}

#[test]
fn enums_and_tuple_structs_get_no_plan() {
    assert_eq!(plan_fields(&RecordData::Enum).unwrap_err(), ShapeError::NotAStruct);
    let data = RecordData::Struct(vec![
        FieldDecl { ident: Some("a".to_string()), rename: None },
        FieldDecl { ident: None, rename: None },
    ]);
    assert_eq!(plan_fields(&data).unwrap_err(), ShapeError::TupleStruct);
    assert_eq!(
        ShapeError::TupleStruct.message(),
        "FromMultiPart does not work for tuple structs."
    );
    assert_eq!(
        ShapeError::NotAStruct.message(),
        "FromMultiPart can only be applied to an struct."
    );
}

#[test]
fn empty_struct_has_an_empty_plan() {
    assert!(plan_fields(&RecordData::Struct(vec![])).unwrap().is_empty());
}

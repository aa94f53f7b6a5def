//! The plan behind a generated [`FromMultiPart`](crate::FromMultiPart) implementation: which
//! part each field of a record is read from.
use vstd::prelude::*;

verus! {

/// One field of a record as declared: its identifier (absent for a positional field) and the
/// part name it was renamed to, if any.
#[derive(Debug)]
pub struct FieldDecl {
    pub ident: Option<String>,
    pub rename: Option<String>,
}

/// The shape of the type that an implementation is asked for.
#[derive(Debug)]
pub enum RecordData {
    /// An enum, whose variants are not read.
    Enum,
    /// A struct with its fields in declaration order.
    Struct(Vec<FieldDecl>),
}

/// One field of the generated implementation: the binding it is read into and the name of
/// the part it is read from.
#[derive(Debug)]
pub struct FieldBinding {
    pub ident: String,
    pub key: String,
}

/// Why no implementation can be generated for a type.
#[derive(Debug, Clone, Copy, PartialEq, Eq, Structural)]
pub enum ShapeError {
    /// The type is an enum.
    NotAStruct,
    /// The struct has a positional field.
    TupleStruct,
}

impl ShapeError {
    /// The message reported at the type's declaration.
    pub fn message(&self) -> (r: &'static str)
        ensures
            self == ShapeError::NotAStruct ==> r@ == "FromMultiPart can only be applied to an struct."@,
            self == ShapeError::TupleStruct ==> r@ == "FromMultiPart does not work for tuple structs."@,
    {
        match self {
            ShapeError::NotAStruct => "FromMultiPart can only be applied to an struct.",
            ShapeError::TupleStruct => "FromMultiPart does not work for tuple structs.",
        }
    }
}

/// The part name a named field is read from: its rename where it has one, else its own
/// identifier.
pub open spec fn lookup_key(f: FieldDecl) -> Seq<char> {
    match f.rename {
        Some(name) => name@,
        None => f.ident.unwrap()@,
    }
}

/// The part name of one named field.
pub fn field_key(ident: &String, rename: &Option<String>) -> (r: String)
    ensures
        r@ == match rename {
            Some(name) => name@,
            None => ident@,
        },
{
    match rename {
        Some(name) => name.clone(),
        None => ident.clone(),
    }
}

/// Map each field of a struct to the part it is read from, in declaration order. An enum, and
/// a struct with a positional field, get no implementation.
pub fn plan_fields(data: &RecordData) -> (r: Result<Vec<FieldBinding>, ShapeError>)
    ensures
        match data {
            RecordData::Enum => r == Err::<Vec<FieldBinding>, ShapeError>(ShapeError::NotAStruct),
            RecordData::Struct(fields) => if exists|i: int|
                0 <= i < fields.len() && (#[trigger] fields[i]).ident is None {
                r == Err::<Vec<FieldBinding>, ShapeError>(ShapeError::TupleStruct)
            } else {
                r matches Ok(bindings) && bindings.len() == fields.len() && forall|i: int|
                    0 <= i < fields.len() ==> (#[trigger] bindings[i]).ident@
                        == fields[i].ident.unwrap()@ && bindings[i].key@ == lookup_key(
                        fields[i],
                    )
            },
        },
{
    let fields = match data {
        RecordData::Enum => return Err(ShapeError::NotAStruct),
        RecordData::Struct(fields) => fields,
    };
    let mut bindings: Vec<FieldBinding> = Vec::new();
    let mut i: usize = 0;
    while i < fields.len()
        invariant
            i <= fields.len(),
            *data == RecordData::Struct(*fields),
            bindings.len() == i,
            forall|j: int| 0 <= j < i ==> (#[trigger] fields[j]).ident is Some,
            forall|j: int|
                0 <= j < i ==> (#[trigger] bindings[j]).ident@ == fields[j].ident.unwrap()@
                    && bindings[j].key@ == lookup_key(fields[j]),
        decreases fields.len() - i,
    {
        let ident = match &fields[i].ident {
            Some(ident) => ident,
            None => return Err(ShapeError::TupleStruct),
        };
        let key = field_key(ident, &fields[i].rename);
        bindings.push(FieldBinding { ident: ident.clone(), key });
        i += 1;
    }
    Ok(bindings)
}

} // verus!

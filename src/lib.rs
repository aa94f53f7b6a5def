//! Typed extraction of multipart/form-data bodies.
//!
//! A request body is first collected into a [`map::MultiPartMap`], a table from part name to
//! raw bytes. A record type implementing [`FromMultiPart`] then pulls each of its fields out of
//! that table through [`part::FromMultiPartPart`], the per-type conversion rules.
use vstd::prelude::*;

pub mod codegen;
pub mod map;
pub mod part;
pub mod text;

use map::MultiPartMap;

verus! {

/// A record that can be read from a multipart request.
pub trait FromMultiPart: Sized {
    /// The error returned when a field cannot be read.
    type Rejection;

    /// Read the record out of the parts of one request.
    fn decode(map: MultiPartMap) -> Result<Self, Self::Rejection>;
}

/// A record read from a multipart request, for handlers that take it as an input.
pub struct TypedMultiPart<T: FromMultiPart>(pub T);

} // verus!

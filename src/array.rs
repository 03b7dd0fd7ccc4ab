//! Arrays: collections of tagged values, and the ownership-transferring
//! conversions between an array and a tagged value.

use crate::collection::Collection;
use crate::object::{Object, ObjectType};
use vstd::prelude::*;
use vstd::std_specs::convert::{FromSpec, TryFromSpec};

verus! {

/// An array of tagged values.
pub type Array = Collection<Object>;

/// Why a tagged value could not be taken as a typed collection.
#[derive(Debug)]
pub enum ConversionError {
    /// The value carries another kind of payload than the one asked for. The
    /// value itself comes back untouched, still owned by the caller.
    TypeMismatch { expected: ObjectType, found: Object },
}

impl TryFrom<Object> for Collection<Object> {
    type Error = ConversionError;

    /// Takes the array out of `value`, moving its buffer rather than copying
    /// it, so the buffer keeps a single owner. Any other kind of value comes
    /// back inside the error, unchanged.
    fn try_from(value: Object) -> (r: Result<Self, ConversionError>) {
        match value {
            Object::Array(a) => Ok(a),
            other => Err(ConversionError::TypeMismatch { expected: ObjectType::Array, found: other }),
        }
    }
}

impl vstd::std_specs::convert::TryFromSpecImpl<Object> for Collection<Object> {
    open spec fn obeys_try_from_spec() -> bool {
        true
    }

    open spec fn try_from_spec(value: Object) -> Result<Self, ConversionError> {
        match value {
            Object::Array(a) => Ok(a),
            other => Err(ConversionError::TypeMismatch { expected: ObjectType::Array, found: other }),
        }
    }
}

/// Extracting an array from a value of any other kind fails with a type
/// mismatch that hands the value back exactly as it was, so the caller still
/// owns it and may use or drop it.
pub proof fn lemma_extraction_failure_keeps_value(value: Object)
    requires
        !(value is Array),
    ensures
        <Collection<Object> as TryFromSpec<Object>>::obeys_try_from_spec(),
        <Collection<Object> as TryFromSpec<Object>>::try_from_spec(value) == Err::<
            Collection<Object>,
            ConversionError,
        >(ConversionError::TypeMismatch { expected: ObjectType::Array, found: value }),
{
}

/// Embedding an array into a tagged value and extracting it again gives back
/// that very array: its buffer moves both ways and is never copied.
pub proof fn lemma_extraction_moves_array(a: Collection<Object>)
    ensures
        <Object as FromSpec<Collection<Object>>>::from_spec(a) == Object::Array(a),
        <Collection<Object> as TryFromSpec<Object>>::try_from_spec(
            <Object as FromSpec<Collection<Object>>>::from_spec(a),
        ) == Ok::<Collection<Object>, ConversionError>(a),
{
}

impl From<Collection<Object>> for Object {
    /// Moves the array into a tagged value; the buffer changes owner and is
    /// not copied.
    fn from(a: Collection<Object>) -> (r: Object) {
        Object::Array(a)
    }
}

impl vstd::std_specs::convert::FromSpecImpl<Collection<Object>> for Object {
    open spec fn obeys_from_spec() -> bool {
        true
    }

    open spec fn from_spec(a: Collection<Object>) -> Object {
        Object::Array(a)
    }
}

} // verus!

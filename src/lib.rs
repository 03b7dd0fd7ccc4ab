//! Owned, ownership-transferring bridge types for values exchanged with a
//! host editor runtime: a growable element collection, a nul-terminated byte
//! string, and the untyped tagged value that can carry either.

mod array;
mod collection;
mod object;
mod string;

pub use array::{
    lemma_extraction_failure_keeps_value, lemma_extraction_moves_array, Array, ConversionError,
};
pub use collection::{same_value, Collection};
pub use object::{kind_of, Object, ObjectType};
pub use string::{is_first_nul, nul_free, NulError, String};

//! The untyped tagged value exchanged with the editor runtime.

use crate::array::Array;
use crate::collection::same_value;
use crate::string::String;
use vstd::prelude::*;

verus! {

/// Which kind of payload an [`Object`] carries.
#[derive(Debug, Clone, Copy, PartialEq, Eq, Structural)]
pub enum ObjectType {
    Nil,
    Boolean,
    Integer,
    Float,
    String,
    Array,
}

/// A tagged value: one payload out of several kinds. The value owns its
/// payload, so a string or an array inside it is dropped with it.
#[derive(Debug)]
pub enum Object {
    Nil,
    Boolean(bool),
    Integer(i64),
    /// A floating-point number, kept as its IEEE-754 binary64 bit pattern.
    Float(u64),
    String(String),
    Array(Array),
}

/// The kind of payload that `o` carries.
pub open spec fn kind_of(o: Object) -> ObjectType {
    match o {
        Object::Nil => ObjectType::Nil,
        Object::Boolean(_) => ObjectType::Boolean,
        Object::Integer(_) => ObjectType::Integer,
        Object::Float(_) => ObjectType::Float,
        Object::String(_) => ObjectType::String,
        Object::Array(_) => ObjectType::Array,
    }
}

impl Object {
    /// The value without payload.
    pub fn new_nil() -> (r: Object)
        ensures
            r == Object::Nil,
    {
        Object::Nil
    }

    /// A float value, given by its IEEE-754 binary64 bit pattern.
    pub fn from_float_bits(bits: u64) -> (r: Object)
        ensures
            r == Object::Float(bits),
    {
        Object::Float(bits)
    }

    /// The kind of payload carried.
    pub fn object_type(&self) -> (r: ObjectType)
        ensures
            r == kind_of(*self),
    {
        match self {
            Object::Nil => ObjectType::Nil,
            Object::Boolean(_) => ObjectType::Boolean,
            Object::Integer(_) => ObjectType::Integer,
            Object::Float(_) => ObjectType::Float,
            Object::String(_) => ObjectType::String,
            Object::Array(_) => ObjectType::Array,
        }
    }

    /// Whether this is the value without payload.
    pub fn is_nil(&self) -> (r: bool)
        ensures
            r == (*self is Nil),
    {
        match self {
            Object::Nil => true,
            _ => false,
        }
    }

    /// The boolean carried, if this is a boolean.
    pub fn try_as_boolean(&self) -> (r: Option<bool>)
        ensures
            r == (match *self {
                Object::Boolean(b) => Some(b),
                _ => None,
            }),
    {
        match self {
            Object::Boolean(b) => Some(*b),
            _ => None,
        }
    }

    /// The integer carried, if this is an integer.
    pub fn try_as_integer(&self) -> (r: Option<i64>)
        ensures
            r == (match *self {
                Object::Integer(n) => Some(n),
                _ => None,
            }),
    {
        match self {
            Object::Integer(n) => Some(*n),
            _ => None,
        }
    }

    /// The bit pattern of the float carried, if this is a float.
    pub fn try_as_float_bits(&self) -> (r: Option<u64>)
        ensures
            r == (match *self {
                Object::Float(bits) => Some(bits),
                _ => None,
            }),
    {
        match self {
            Object::Float(bits) => Some(*bits),
            _ => None,
        }
    }

    /// The string carried, if this is a string.
    pub fn try_as_string(&self) -> (r: Option<&String>)
        ensures
            match *self {
                Object::String(s) => r == Some(&s),
                _ => r is None,
            },
    {
        match self {
            Object::String(s) => Some(s),
            _ => None,
        }
    }

    /// The array carried, if this is an array.
    pub fn try_as_array(&self) -> (r: Option<&Array>)
        ensures
            match *self {
                Object::Array(a) => r == Some(&a),
                _ => r is None,
            },
    {
        match self {
            Object::Array(a) => Some(a),
            _ => None,
        }
    }
}

impl Clone for Object {
    /// A deep copy: strings and arrays get buffers of their own, nested
    /// arrays included.
    fn clone(&self) -> (r: Self)
        ensures
            same_value(*self, r),
        decreases self, 1nat,
    {
        match self {
            Object::Nil => Object::Nil,
            Object::Boolean(b) => Object::Boolean(*b),
            Object::Integer(n) => Object::Integer(*n),
            Object::Float(bits) => Object::Float(*bits),
            Object::String(s) => Object::String(s.clone()),
            Object::Array(a) => Object::Array(a.clone_array()),
        }
    }
}

impl From<bool> for Object {
    fn from(b: bool) -> (r: Object) {
        Object::Boolean(b)
    }
}

impl vstd::std_specs::convert::FromSpecImpl<bool> for Object {
    open spec fn obeys_from_spec() -> bool {
        true
    }

    open spec fn from_spec(b: bool) -> Object {
        Object::Boolean(b)
    }
}

impl From<i64> for Object {
    fn from(n: i64) -> (r: Object) {
        Object::Integer(n)
    }
}

impl vstd::std_specs::convert::FromSpecImpl<i64> for Object {
    open spec fn obeys_from_spec() -> bool {
        true
    }

    open spec fn from_spec(n: i64) -> Object {
        Object::Integer(n)
    }
}

impl From<String> for Object {
    /// Moves the string into the value; nothing is copied.
    fn from(s: String) -> (r: Object) {
        Object::String(s)
    }
}

impl vstd::std_specs::convert::FromSpecImpl<String> for Object {
    open spec fn obeys_from_spec() -> bool {
        true
    }

    open spec fn from_spec(s: String) -> Object {
        Object::String(s)
    }
}

} // verus!

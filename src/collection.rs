//! The growable, exclusively owned element collection that arrays are built
//! on, and the deep copy of arrays of tagged values.

use vstd::prelude::*;
use vstd::std_specs::cmp::PartialEqSpec;
use vstd::std_specs::iter::IteratorSpec;
use vstd::std_specs::slice::axiom_spec_slice_iter;
use vstd::std_specs::vec::{axiom_spec_into_iter, axiom_vec_index_decreases, spec_into_iter};
use crate::object::Object;

verus! {

/// Contiguous, exclusively owned buffer of `T`: the live elements together
/// with the allocation that holds them.
///
/// The buffer is an owned vector, so constructing takes it over without
/// copying, converting back hands the very same buffer out again, and
/// dropping releases every live element and the allocation exactly once.
#[derive(Debug)]
pub struct Collection<T> {
    items: Vec<T>,
}

impl<T> View for Collection<T> {
    type V = Seq<T>;

    /// The live elements, in order.
    closed spec fn view(&self) -> Seq<T> {
        self.items@
    }
}

impl<T> Collection<T> {
    /// The owned buffer itself, allocation included.
    pub closed spec fn buffer(self) -> Vec<T> {
        self.items
    }

    /// The collection that owns exactly the buffer `v`.
    pub closed spec fn from_buffer(v: Vec<T>) -> Collection<T> {
        Collection { items: v }
    }

    /// Takes over the buffer of `vec`, its length and its capacity, without
    /// copying any element.
    pub fn new(vec: Vec<T>) -> (r: Self)
        ensures
            r == Self::from_buffer(vec),
            r.buffer() == vec,
            r@ == vec@,
    {
        Collection { items: vec }
    }

    /// The number of live elements.
    pub fn len(&self) -> (r: usize)
        ensures
            r == self@.len(),
    {
        self.items.len()
    }

    /// Whether there are no live elements.
    pub fn is_empty(&self) -> (r: bool)
        ensures
            r == (self@.len() == 0),
    {
        self.len() == 0
    }

    /// The number of element slots allocated; never less than `len()`.
    pub fn capacity(&self) -> (r: usize)
        ensures
            r >= self@.len(),
    {
        vec_capacity(&self.items)
    }

    /// A read-only view of exactly the live elements.
    pub fn as_slice(&self) -> (r: &[T])
        ensures
            r@ == self@,
    {
        self.items.as_slice()
    }

    /// Mutable access to the live elements, in place. Elements can be
    /// replaced, but the length and the capacity stay as they are.
    pub fn as_mut_ptr(&mut self) -> (r: &mut [T])
        ensures
            r@ == old(self)@,
            final(r)@ == final(self)@,
    {
        self.items.as_mut_slice()
    }

    /// Iterates over references to the live elements, in order.
    pub fn iter(&self) -> (r: std::slice::Iter<'_, T>)
        ensures
            r.remaining() == self@.as_ref(),
    {
        broadcast use axiom_spec_slice_iter;
        self.items.as_slice().iter()
    }

    /// Gives the owned buffer back, with its length and capacity, without
    /// copying any element.
    pub fn into_vec(self) -> (r: Vec<T>)
        ensures
            r == self.buffer(),
            r@ == self@,
    {
        self.items
    }

    /// Consumes the collection and yields its live elements by value, in
    /// order. Dropping the iterator early drops the elements not yet yielded
    /// and releases the buffer.
    pub fn into_iter(self) -> (r: std::vec::IntoIter<T>)
        ensures
            r == spec_into_iter(self.buffer()),
            r.remaining() == self@,
    {
        broadcast use axiom_spec_into_iter;
        self.items.into_iter()
    }
}

impl<T> Collection<T> {
    /// Taking a vector into a collection and converting the collection back
    /// gives the very same vector: its elements, its length, and its
    /// allocation with its capacity.
    pub proof fn lemma_round_trip(v: Vec<T>)
        ensures
            Self::from_buffer(v).buffer() == v,
            Self::from_buffer(v)@ == v@,
            Self::from_buffer(v)@.len() == v@.len(),
    {
    }
}

impl<T: PartialEq> Collection<T> {
    /// Equality looks at the live elements alone: two collections holding the
    /// same elements, whatever their capacities, compare alike with any third.
    pub proof fn lemma_eq_ignores_capacity(a: Self, b: Self, c: Self)
        requires
            a@ == b@,
        ensures
            a.eq_spec(&c) == b.eq_spec(&c),
            c.eq_spec(&a) == c.eq_spec(&b),
    {
    }

    /// Where each element equals itself, two collections holding the same
    /// elements are equal, whatever their capacities.
    pub proof fn lemma_same_elements_equal(a: Self, b: Self)
        requires
            a@ == b@,
            forall|x: T| #[trigger] x.eq_spec(&x),
        ensures
            a.eq_spec(&b),
    {
    }
}

/// Whether `b` holds the same value as `a`, all the way down: the same kind,
/// the same scalar, the same string content, or arrays of the same length
/// whose elements pairwise hold the same value.
pub open spec fn same_value(a: Object, b: Object) -> bool
    decreases a,
    via same_value_decreases
{
    match a {
        Object::String(x) => match b {
            Object::String(y) => x@ == y@,
            _ => false,
        },
        Object::Array(x) => match b {
            Object::Array(y) => x@.len() == y@.len() && forall|i: int|
                #![trigger x@[i], y@[i]]
                0 <= i < x@.len() ==> same_value(x@[i], y@[i]),
            _ => false,
        },
        _ => a == b,
    }
}

#[via_fn]
proof fn same_value_decreases(a: Object, b: Object) {
    broadcast use axiom_vec_index_decreases;

    match a {
        Object::Array(x) => {
            assert forall|i: int| 0 <= i < x@.len() implies decreases_to!(a => x@[i]) by {
                assert(decreases_to!(x.items => x.items[i]));
            }
        },
        _ => {},
    }
}

/// Arrays of the same length whose elements pairwise hold the same value hold
/// the same value.
proof fn lemma_same_array_value(x: Collection<Object>, y: Collection<Object>)
    requires
        x@.len() == y@.len(),
        forall|i: int| 0 <= i < x@.len() ==> same_value(#[trigger] x@[i], y@[i]),
    ensures
        same_value(Object::Array(x), Object::Array(y)),
{
}

impl Collection<Object> {
    /// Copies an array element by element, each element through
    /// `Object::clone`, into a fresh buffer.
    pub fn clone_array(&self) -> (r: Self)
        ensures
            r@.len() == self@.len(),
            forall|i: int| 0 <= i < self@.len() ==> #[trigger] same_value(self@[i], r@[i]),
            same_value(Object::Array(*self), Object::Array(r)),
        decreases self, 0nat,
    {
        broadcast use axiom_vec_index_decreases;

        let n = self.items.len();
        let mut items: Vec<Object> = Vec::new();
        let mut i: usize = 0;
        while i < n
            invariant
                n == self@.len(),
                i <= n,
                items@.len() == i,
                forall|j: int| 0 <= j < i ==> #[trigger] same_value(self@[j], items@[j]),
            decreases n - i,
        {
            assert(decreases_to!(self.items => self.items[i as int]));
            let e = self.items[i].clone();
            items.push(e);
            i = i + 1;
        }
        let r = Collection { items };
        proof {
            lemma_same_array_value(*self, r);
        }
        r
    }
}

/// Relies on `Vec::capacity`: the slots allocated, which are never fewer than
/// the elements held.
#[verifier::external_body]
fn vec_capacity<T>(v: &Vec<T>) -> (r: usize)
    ensures
        r >= v@.len(),
{
    v.capacity()
}

impl<T: Clone> Clone for Collection<T> {
    /// Copies every live element into a fresh buffer through `T::clone`; the
    /// copy is independent of `self`.
    fn clone(&self) -> (r: Self)
        ensures
            r@.len() == self@.len(),
            forall|i: int| 0 <= i < self@.len() ==> cloned::<T>(#[trigger] self@[i], r@[i]),
    {
        Collection { items: self.items.clone() }
    }
}

impl<T: PartialEq> PartialEq for Collection<T> {
    /// Compares the live elements only; capacity plays no part.
    fn eq(&self, other: &Self) -> (r: bool) {
        self.items == other.items
    }
}

impl<T: PartialEq> vstd::std_specs::cmp::PartialEqSpecImpl for Collection<T> {
    open spec fn obeys_eq_spec() -> bool {
        T::obeys_eq_spec()
    }

    open spec fn eq_spec(&self, other: &Self) -> bool {
        &&& self@.len() == other@.len()
        &&& forall|i: int| 0 <= i < self@.len() ==> (#[trigger] self@[i]).eq_spec(&other@[i])
    }
}

impl<T> From<Collection<T>> for Vec<T> {
    fn from(c: Collection<T>) -> (r: Vec<T>)
        ensures
            r == c.buffer(),
    {
        c.into_vec()
    }
}

impl<T> vstd::std_specs::convert::FromSpecImpl<Collection<T>> for Vec<T> {
    open spec fn obeys_from_spec() -> bool {
        true
    }

    open spec fn from_spec(c: Collection<T>) -> Vec<T> {
        c.buffer()
    }
}

impl<T> From<Vec<T>> for Collection<T> {
    fn from(v: Vec<T>) -> (r: Collection<T>)
        ensures
            r.buffer() == v,
    {
        Collection::new(v)
    }
}

impl<T> vstd::std_specs::convert::FromSpecImpl<Vec<T>> for Collection<T> {
    open spec fn obeys_from_spec() -> bool {
        true
    }

    open spec fn from_spec(v: Vec<T>) -> Collection<T> {
        Collection::from_buffer(v)
    }
}

} // verus!

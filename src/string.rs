//! A nul-terminated byte string in the editor runtime's layout.

use vstd::prelude::*;
use vstd::std_specs::cmp::PartialEqSpec;
use vstd::string::StringSliceAdditionalSpecFns;
use vstd::slice::{slice_subrange, slice_to_vec};

verus! {

/// Whether no byte of `s` is nul.
pub open spec fn nul_free(s: Seq<u8>) -> bool {
    forall|i: int| 0 <= i < s.len() ==> #[trigger] s[i] != 0
}

/// `p` is the position of the first nul byte of `s`.
pub open spec fn is_first_nul(s: Seq<u8>, p: int) -> bool {
    &&& 0 <= p < s.len()
    &&& s[p] == 0
    &&& nul_free(s.take(p))
}

/// The bytes handed to [`String::new`] held a nul byte, which a nul-terminated
/// string cannot carry.
#[derive(Debug, PartialEq, Eq)]
pub struct NulError {
    position: usize,
    bytes: Vec<u8>,
}

impl NulError {
    /// Where the first nul byte stands in the rejected bytes.
    pub closed spec fn position_spec(&self) -> int {
        self.position as int
    }

    /// The rejected bytes.
    pub closed spec fn bytes_spec(&self) -> Seq<u8> {
        self.bytes@
    }

    /// The position of the first nul byte in the rejected bytes.
    pub fn nul_position(&self) -> (r: usize)
        ensures
            r == self.position_spec(),
    {
        self.position
    }

    /// Gives the rejected bytes back.
    pub fn into_vec(self) -> (r: Vec<u8>)
        ensures
            r@ == self.bytes_spec(),
    {
        self.bytes
    }
}

/// An owned byte string whose buffer always ends in a single nul byte, the
/// only nul it holds.
///
/// [`String::len`] counts that terminator, as the runtime's own size field
/// does; [`String::to_bytes`] leaves it out.
#[derive(Debug)]
pub struct String {
    data: Vec<u8>,
}

impl View for String {
    type V = Seq<u8>;

    /// The content, without the terminator.
    closed spec fn view(&self) -> Seq<u8> {
        self.data@.drop_last()
    }
}

impl String {
    #[verifier::type_invariant]
    spec fn terminated(&self) -> bool {
        &&& self.data@.len() >= 1
        &&& self.data@.last() == 0
        &&& nul_free(self.data@.drop_last())
    }

    /// The bytes as stored, terminator included.
    pub closed spec fn stored(&self) -> Seq<u8> {
        self.data@
    }

    /// Copies `bytes` into a fresh buffer and appends the terminator.
    /// Fails, allocating nothing, where `bytes` holds a nul byte.
    pub fn new(bytes: &[u8]) -> (r: Result<String, NulError>)
        ensures
            r is Ok <==> nul_free(bytes@),
            r matches Ok(s) ==> s@ == bytes@,
            r matches Err(e) ==> is_first_nul(bytes@, e.position_spec()) && e.bytes_spec()
                == bytes@,
    {
        let n = bytes.len();
        let mut i: usize = 0;
        while i < n
            invariant
                n == bytes@.len(),
                i <= n,
                nul_free(bytes@.take(i as int)),
            decreases n - i,
        {
            if bytes[i] == 0 {
                return Err(NulError { position: i, bytes: slice_to_vec(bytes) });
            }
            assert(bytes@.take(i as int + 1) =~= bytes@.take(i as int).push(bytes@[i as int]));
            i = i + 1;
        }
        assert(bytes@.take(n as int) =~= bytes@);
        let mut data: Vec<u8> = Vec::new();
        let mut j: usize = 0;
        while j < n
            invariant
                n == bytes@.len(),
                j <= n,
                data@ =~= bytes@.take(j as int),
            decreases n - j,
        {
            data.push(bytes[j]);
            assert(bytes@.take(j as int + 1) =~= bytes@.take(j as int).push(bytes@[j as int]));
            j = j + 1;
        }
        assert(data@ =~= bytes@);
        data.push(0);
        assert(data@.drop_last() =~= bytes@);
        Ok(String { data })
    }

    /// The stored bytes, terminator included.
    pub fn as_c_str(&self) -> (r: &[u8])
        ensures
            r@ == self@.push(0),
            r@ == self.stored(),
    {
        proof {
            use_type_invariant(self);
            assert(self.data@ =~= self.data@.drop_last().push(0));
        }
        self.data.as_slice()
    }

    /// The content, without the terminator.
    pub fn to_bytes(&self) -> (r: &[u8])
        ensures
            r@ == self@,
    {
        proof {
            use_type_invariant(self);
        }
        let n = self.data.len() - 1;
        let r = slice_subrange(self.data.as_slice(), 0, n);
        assert(r@ =~= self@);
        r
    }

    /// The stored size, which counts the terminator: one more than
    /// `to_bytes().len()`.
    pub fn len(&self) -> (r: usize)
        ensures
            r == self@.len() + 1,
    {
        proof {
            use_type_invariant(self);
        }
        self.data.len()
    }

    /// Whether the stored size is zero. It never is, since the terminator
    /// counts: use `to_bytes().is_empty()` for an empty content.
    pub fn is_empty(&self) -> (r: bool)
        ensures
            r == (self@.len() + 1 == 0),
            !r,
    {
        self.len() == 0
    }

    /// Gives the content back as an owned vector, without the terminator.
    pub fn into_bytes(self) -> (r: Vec<u8>)
        ensures
            r@ == self@,
    {
        proof {
            use_type_invariant(&self);
        }
        let mut data = self.data;
        data.pop();
        data
    }
}

impl Clone for String {
    /// Copies the content into a fresh buffer of its own.
    fn clone(&self) -> (r: Self)
        ensures
            r@ == self@,
    {
        proof {
            use_type_invariant(self);
        }
        let data = self.data.clone();
        assert(data@ =~= self.data@);
        String { data }
    }
}

impl PartialEq for String {
    /// Compares the content, byte for byte.
    fn eq(&self, other: &Self) -> (r: bool) {
        let r = self.data == other.data;
        proof {
            use_type_invariant(self);
            use_type_invariant(other);
            assert(self.data@ =~= self@.push(0));
            assert(other.data@ =~= other@.push(0));
            if r {
                assert(self.data@ =~= other.data@);
                assert(self@ =~= other@);
            } else if self@ == other@ {
                assert(forall|i: int|
                    0 <= i < self.data@.len() ==> (#[trigger] self.data@[i]).eq_spec(
                        &other.data@[i],
                    ));
            }
        }
        r
    }
}

impl vstd::std_specs::cmp::PartialEqSpecImpl for String {
    open spec fn obeys_eq_spec() -> bool {
        true
    }

    open spec fn eq_spec(&self, other: &Self) -> bool {
        self@ == other@
    }
}

impl Eq for String {
}

/// Whether `a` and `b` hold the same bytes.
fn bytes_equal(a: &[u8], b: &[u8]) -> (r: bool)
    ensures
        r == (a@ == b@),
{
    if a.len() != b.len() {
        return false;
    }
    let n = a.len();
    let mut i: usize = 0;
    while i < n
        invariant
            n == a@.len(),
            n == b@.len(),
            i <= n,
            a@.take(i as int) == b@.take(i as int),
        decreases n - i,
    {
        if a[i] != b[i] {
            return false;
        }
        assert(a@.take(i as int + 1) =~= a@.take(i as int).push(a@[i as int]));
        assert(b@.take(i as int + 1) =~= b@.take(i as int).push(b@[i as int]));
        i = i + 1;
    }
    assert(a@ =~= a@.take(n as int));
    assert(b@ =~= b@.take(n as int));
    true
}

impl PartialEq<String> for str {
    /// Compares the text's bytes with the string's content.
    fn eq(&self, other: &String) -> (r: bool) {
        bytes_equal(self.as_bytes(), other.to_bytes())
    }
}

impl vstd::std_specs::cmp::PartialEqSpecImpl<String> for str {
    open spec fn obeys_eq_spec() -> bool {
        true
    }

    open spec fn eq_spec(&self, other: &String) -> bool {
        self.spec_bytes() == other@
    }
}

} // verus!

//! Keys, hashes and signatures, as the plain bytes that travel in messages.
//!
//! The protocol never looks inside any of them: it only asks whether two keys
//! or two hashes are the same.

use vstd::prelude::*;

verus! {

/// Bytes that a [`Table`](crate::table::Table) can be keyed by.
pub trait Key: Copy {
    /// Whether the two are the same key.
    fn same(&self, other: &Self) -> (r: bool)
        ensures
            r == (*self == *other),
    ;
}

/// Whether two arrays of 32 bytes are equal, byte for byte.
fn same_bytes(a: &[u8; 32], b: &[u8; 32]) -> (r: bool)
    ensures
        r == (*a == *b),
{
    let mut i: usize = 0;
    while i < 32
        invariant
            i <= 32,
            forall|j: int| 0 <= j < i ==> a@[j] == b@[j],
        decreases 32 - i,
    {
        if a[i] != b[i] {
            assert(a@[i as int] != b@[i as int]);
            return false;
        }
        i += 1;
    }
    assert(a@ =~= b@);
    assert(*a =~= *b);
    true
}

/// The hash of a broadcast's content, which Echo and Ready messages refer to.
#[derive(Clone, Copy, Debug, Eq, Hash)]
pub struct HashBytes(pub [u8; 32]);

/// The public key by which a node is known to the others.
#[derive(Clone, Copy, Debug, Eq, Hash)]
pub struct PublicKeyBytes(pub [u8; 32]);

/// A signature, carried along and handed to whoever checks it.
#[derive(Clone, Copy, Debug, PartialEq, Eq, Hash)]
pub struct SignatureBytes(pub [u8; 64]);

impl PartialEq for HashBytes {
    fn eq(&self, other: &Self) -> (r: bool) {
        same_bytes(&self.0, &other.0)
    }
}

impl vstd::std_specs::cmp::PartialEqSpecImpl for HashBytes {
    open spec fn obeys_eq_spec() -> bool {
        true
    }

    open spec fn eq_spec(&self, other: &Self) -> bool {
        self.0 == other.0
    }
}

impl PartialEq for PublicKeyBytes {
    fn eq(&self, other: &Self) -> (r: bool) {
        same_bytes(&self.0, &other.0)
    }
}

impl vstd::std_specs::cmp::PartialEqSpecImpl for PublicKeyBytes {
    open spec fn obeys_eq_spec() -> bool {
        true
    }

    open spec fn eq_spec(&self, other: &Self) -> bool {
        self.0 == other.0
    }
}

impl Key for HashBytes {
    fn same(&self, other: &Self) -> (r: bool) {
        *self == *other
    }
}

impl Key for PublicKeyBytes {
    fn same(&self, other: &Self) -> (r: bool) {
        *self == *other
    }
}

} // verus!

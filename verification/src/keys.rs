//! Identifiers of replicas and peers.

use vstd::prelude::*;

verus! {

/// An identifier that can be compared for equality and copied freely.
pub trait Id: Copy {
    /// Whether the two identifiers are the same one.
    fn same(&self, other: &Self) -> (b: bool)
        ensures
            b == (*self == *other),
    ;
}

/// Whether two 32-byte strings are equal.
fn same_bytes(a: &[u8; 32], b: &[u8; 32]) -> (r: bool)
    ensures
        r == (*a == *b),
{
    let mut i: usize = 0;
    while i < 32
        invariant
            i <= 32,
            forall|j: int| 0 <= j < i ==> a[j] == b[j],
        decreases 32 - i,
    {
        if a[i] != b[i] {
            return false;
        }
        i = i + 1;
    }
    assert(*a =~= *b);
    true
}

/// The identity of a replica: the public half of its namespace key.
#[derive(Debug, Clone, Copy)]
pub struct NamespaceId {
    /// The key bytes.
    pub bytes: [u8; 32],
}

impl Id for NamespaceId {
    fn same(&self, other: &Self) -> (b: bool) {
        same_bytes(&self.bytes, &other.bytes)
    }
}

impl PartialEq for NamespaceId {
    fn eq(&self, other: &Self) -> (b: bool) {
        self.same(other)
    }
}

impl vstd::std_specs::cmp::PartialEqSpecImpl for NamespaceId {
    open spec fn obeys_eq_spec() -> bool {
        true
    }

    open spec fn eq_spec(&self, other: &Self) -> bool {
        *self == *other
    }
}

impl Eq for NamespaceId {

}

/// The identity of a remote node: the bytes of its public key.
#[derive(Debug, Clone, Copy)]
pub struct PeerId {
    /// The key bytes.
    pub bytes: [u8; 32],
}

impl Id for PeerId {
    fn same(&self, other: &Self) -> (b: bool) {
        same_bytes(&self.bytes, &other.bytes)
    }
}

impl PartialEq for PeerId {
    fn eq(&self, other: &Self) -> (b: bool) {
        self.same(other)
    }
}

impl vstd::std_specs::cmp::PartialEqSpecImpl for PeerId {
    open spec fn obeys_eq_spec() -> bool {
        true
    }

    open spec fn eq_spec(&self, other: &Self) -> bool {
        *self == *other
    }
}

impl Eq for PeerId {

}

} // verus!

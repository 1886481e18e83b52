//! Identity tokens of the gateway's data model.
//!
//! A federation is named by an opaque byte identity; a prefix of those
//! bytes is a shorter, not necessarily unique, lookup key. An operation id
//! is the correlation token handed out when a long-running federation
//! operation is started. The federation SDK's own wire encodings stay
//! outside this crate; identities cross the boundary as raw bytes or as
//! lowercase hex text.

use vstd::prelude::*;

verus! {

/// Stable opaque identity of one federation.
#[derive(Debug)]
pub struct FederationIdentity {
    pub bytes: Vec<u8>,
}

/// A leading fragment of a federation identity, used as a lookup key.
#[derive(Debug)]
pub struct IdentityPrefix {
    pub bytes: Vec<u8>,
}

/// Correlation token of one tracked asynchronous operation.
#[derive(Clone, Copy, Debug, PartialEq, Eq, Structural)]
pub struct OperationId {
    pub raw: u64,
}

/// Whether `p` is a leading fragment of `id`.
pub open spec fn spec_matches_prefix(id: Seq<u8>, p: Seq<u8>) -> bool {
    p.len() <= id.len() && id.subrange(0, p.len() as int) == p
}

/// Byte-wise equality of two vectors.
pub fn bytes_eq(a: &Vec<u8>, b: &Vec<u8>) -> (r: bool)
    ensures
        r == (a@ == b@),
{
    if a.len() != b.len() {
        assert(a@ != b@) by {
            assert(a@.len() != b@.len());
        }
        return false;
    }
    let n = a.len();
    let mut i: usize = 0;
    while i < n
        invariant
            n == a@.len() == b@.len(),
            i <= n,
            forall|j: int| 0 <= j < i ==> a@[j] == b@[j],
        decreases n - i,
    {
        if a[i] != b[i] {
            return false;
        }
        i += 1;
    }
    assert(a@ =~= b@);
    true
}

/// Whether `p` is a leading fragment of `id`, byte for byte.
pub fn bytes_prefix(id: &Vec<u8>, p: &Vec<u8>) -> (r: bool)
    ensures
        r == spec_matches_prefix(id@, p@),
{
    if p.len() > id.len() {
        return false;
    }
    let n = p.len();
    let mut i: usize = 0;
    while i < n
        invariant
            n == p@.len() <= id@.len(),
            i <= n,
            forall|j: int| 0 <= j < i ==> id@[j] == p@[j],
        decreases n - i,
    {
        if id[i] != p[i] {
            assert(id@.subrange(0, n as int)[i as int] != p@[i as int]);
            return false;
        }
        i += 1;
    }
    assert(id@.subrange(0, n as int) =~= p@);
    true
}

/// A fresh vector holding the same bytes.
pub fn copy_bytes(v: &Vec<u8>) -> (r: Vec<u8>)
    ensures
        r@ == v@,
{
    let mut out: Vec<u8> = Vec::new();
    let n = v.len();
    let mut i: usize = 0;
    while i < n
        invariant
            n == v@.len(),
            i <= n,
            out@ == v@.subrange(0, i as int),
        decreases n - i,
    {
        out.push(v[i]);
        assert(out@ =~= v@.subrange(0, i + 1 as int));
        i += 1;
    }
    assert(out@ =~= v@);
    out
}

impl FederationIdentity {
    pub fn from_bytes(bytes: Vec<u8>) -> (r: FederationIdentity)
        ensures
            r.bytes@ == bytes@,
    {
        FederationIdentity { bytes }
    }

    /// A fresh value equal to this one.
    pub fn duplicate(&self) -> (r: FederationIdentity)
        ensures
            r.bytes@ == self.bytes@,
    {
        FederationIdentity { bytes: copy_bytes(&self.bytes) }
    }

    pub fn same_as(&self, other: &FederationIdentity) -> (r: bool)
        ensures
            r == (self.bytes@ == other.bytes@),
    {
        bytes_eq(&self.bytes, &other.bytes)
    }

    /// Whether `p` names this federation, possibly among others.
    pub fn has_prefix(&self, p: &IdentityPrefix) -> (r: bool)
        ensures
            r == spec_matches_prefix(self.bytes@, p.bytes@),
    {
        bytes_prefix(&self.bytes, &p.bytes)
    }
}

impl IdentityPrefix {
    pub fn from_bytes(bytes: Vec<u8>) -> (r: IdentityPrefix)
        ensures
            r.bytes@ == bytes@,
    {
        IdentityPrefix { bytes }
    }

    /// A fresh value equal to this one.
    pub fn duplicate(&self) -> (r: IdentityPrefix)
        ensures
            r.bytes@ == self.bytes@,
    {
        IdentityPrefix { bytes: copy_bytes(&self.bytes) }
    }

    pub fn same_as(&self, other: &IdentityPrefix) -> (r: bool)
        ensures
            r == (self.bytes@ == other.bytes@),
    {
        bytes_eq(&self.bytes, &other.bytes)
    }
}

} // verus!

//! The registry of live per-federation client handles.
//!
//! The registry owns the mapping from federation identity to the handle a
//! request is served with. Requests select a client explicitly, by an
//! identity prefix, or not at all; prefix and default resolution never
//! pick silently among several candidates — an ambiguous selection is an
//! explicit error, or goes to the first registered client when the
//! registry was configured that way. Registration only ever appends, so a
//! resolution observed once stays valid for the process lifetime.

use vstd::prelude::*;

use crate::error::GatewayError;
use crate::ids::FederationIdentity;
use crate::ids::IdentityPrefix;
use crate::ids::spec_matches_prefix;

verus! {

/// A live handle bound to one federation: the identity it serves and the
/// slot under which the surrounding process keeps the actual client.
#[derive(Debug)]
pub struct ClientHandle {
    pub federation: FederationIdentity,
    pub slot: usize,
}

/// How a request names the client it wants.
#[derive(Debug)]
pub enum ClientSelector {
    Explicit(FederationIdentity),
    Prefix(IdentityPrefix),
    DefaultClient,
}

/// What default resolution does when several federations are registered.
#[derive(Clone, Copy, Debug, PartialEq, Eq, Structural)]
pub enum MultiClientPolicy {
    /// Serve the first registered federation.
    UseFirst,
    /// Refuse: a caller must select explicitly.
    RequireSole,
}

#[derive(Clone, Copy, Debug, PartialEq, Eq, Structural)]
pub enum ResolveError {
    NotFound,
    Ambiguous,
}

#[derive(Clone, Copy, Debug, PartialEq, Eq, Structural)]
pub enum RegistryError {
    AlreadyRegistered,
}

/// The client registry. Lookups are read-only; registration appends.
#[derive(Debug)]
pub struct ClientRegistry {
    clients: Vec<ClientHandle>,
    policy: MultiClientPolicy,
}

impl View for ClientRegistry {
    type V = Seq<ClientHandle>;

    closed spec fn view(&self) -> Seq<ClientHandle> {
        self.clients@
    }
}

impl ClientRegistry {
    /// Identities are pairwise distinct and each handle's slot is its
    /// position.
    pub open spec fn wf(&self) -> bool {
        &&& forall|i: int|
            0 <= i < self@.len() ==> (#[trigger] self@[i]).slot == i
        &&& forall|i: int, j: int|
            0 <= i < j < self@.len() ==> self@[i].federation.bytes@ != self@[j].federation.bytes@
    }

    pub closed spec fn spec_policy(&self) -> MultiClientPolicy {
        self.policy
    }

    pub fn new(policy: MultiClientPolicy) -> (r: ClientRegistry)
        ensures
            r@ == Seq::<ClientHandle>::empty(),
            r.spec_policy() == policy,
            r.wf(),
    {
        let r = ClientRegistry { clients: Vec::new(), policy };
        assert(r@ =~= Seq::<ClientHandle>::empty());
        r
    }

    pub fn len(&self) -> (r: usize)
        ensures
            r == self@.len(),
    {
        self.clients.len()
    }

    pub fn client_at(&self, i: usize) -> (r: &ClientHandle)
        requires
            i < self@.len(),
        ensures
            *r == self@[i as int],
    {
        &self.clients[i]
    }

    /// Register a new federation; its handle takes the next slot. An
    /// identity that is already registered is refused and nothing changes.
    pub fn insert(&mut self, id: FederationIdentity) -> (r: Result<usize, RegistryError>)
        requires
            old(self).wf(),
        ensures
            final(self).wf(),
            final(self).spec_policy() == old(self).spec_policy(),
            match r {
                Ok(slot) => {
                    &&& slot == old(self)@.len()
                    &&& final(self)@.len() == old(self)@.len() + 1
                    &&& forall|i: int| 0 <= i < old(self)@.len() ==> final(self)@[i] == old(self)@[i]
                    &&& final(self)@[slot as int].federation.bytes@ == id.bytes@
                    &&& final(self)@[slot as int].slot == slot
                    &&& forall|i: int|
                        0 <= i < old(self)@.len() ==> (#[trigger] old(self)@[i]).federation.bytes@
                            != id.bytes@
                },
                Err(e) => {
                    &&& e == RegistryError::AlreadyRegistered
                    &&& final(self)@ == old(self)@
                    &&& exists|i: int|
                        0 <= i < final(self)@.len() && (#[trigger] final(self)@[i]).federation.bytes@
                            == id.bytes@
                },
            },
    {
        let n = self.clients.len();
        let mut i: usize = 0;
        while i < n
            invariant
                old(self).wf(),
                n == self@.len(),
                i <= n,
                self == old(self),
                forall|j: int|
                    0 <= j < i ==> (#[trigger] self@[j]).federation.bytes@ != id.bytes@,
            decreases n - i,
        {
            if self.clients[i].federation.same_as(&id) {
                return Err(RegistryError::AlreadyRegistered);
            }
            i += 1;
        }
        let slot = n;
        self.clients.push(ClientHandle { federation: id, slot });
        Ok(slot)
    }

    /// Resolve an explicit federation identity to its handle.
    ///
    /// Exactly the registered entry carrying `id` is returned; when none
    /// carries it, the lookup fails.
    pub fn resolve_explicit(&self, id: &FederationIdentity) -> (r: Result<
        &ClientHandle,
        ResolveError,
    >)
        ensures
            match r {
                Ok(h) => {
                    &&& exists|i: int|
                        0 <= i < self@.len() && self@[i] == *h
                    &&& h.federation.bytes@ == id.bytes@
                },
                Err(e) => {
                    &&& e == ResolveError::NotFound
                    &&& forall|i: int|
                        0 <= i < self@.len() ==> (#[trigger] self@[i]).federation.bytes@
                            != id.bytes@
                },
            },
    {
        let n = self.clients.len();
        let mut i: usize = 0;
        while i < n
            invariant
                n == self@.len(),
                i <= n,
                forall|j: int|
                    0 <= j < i ==> (#[trigger] self@[j]).federation.bytes@ != id.bytes@,
            decreases n - i,
        {
            if self.clients[i].federation.same_as(id) {
                return Ok(&self.clients[i]);
            }
            i += 1;
        }
        Err(ResolveError::NotFound)
    }

    /// Resolve an identity prefix: the sole registered federation whose
    /// identity starts with it. Zero matches fail with `NotFound`; two or
    /// more are an explicit ambiguity, never a silent pick.
    pub fn resolve_prefix(&self, p: &IdentityPrefix) -> (r: Result<&ClientHandle, ResolveError>)
        ensures
            match r {
                Ok(h) => {
                    &&& exists|i: int|
                        0 <= i < self@.len() && self@[i] == *h
                    &&& spec_matches_prefix(h.federation.bytes@, p.bytes@)
                    &&& forall|i: int|
                        0 <= i < self@.len() && self@[i] != *h ==> !spec_matches_prefix(
                            (#[trigger] self@[i]).federation.bytes@,
                            p.bytes@,
                        )
                },
                Err(ResolveError::NotFound) => forall|i: int|
                    0 <= i < self@.len() ==> !spec_matches_prefix(
                        (#[trigger] self@[i]).federation.bytes@,
                        p.bytes@,
                    ),
                Err(ResolveError::Ambiguous) => exists|i: int, j: int|
                    0 <= i < j < self@.len() && spec_matches_prefix(
                        (#[trigger] self@[i]).federation.bytes@,
                        p.bytes@,
                    ) && spec_matches_prefix((#[trigger] self@[j]).federation.bytes@, p.bytes@),
            },
    {
        let n = self.clients.len();
        let mut found: Option<usize> = None;
        let mut i: usize = 0;
        while i < n
            invariant
                n == self@.len(),
                i <= n,
                match found {
                    Some(k) => {
                        &&& k < i
                        &&& spec_matches_prefix(self@[k as int].federation.bytes@, p.bytes@)
                        &&& forall|j: int|
                            0 <= j < i && j != k ==> !spec_matches_prefix(
                                (#[trigger] self@[j]).federation.bytes@,
                                p.bytes@,
                            )
                    },
                    None => forall|j: int|
                        0 <= j < i ==> !spec_matches_prefix(
                            (#[trigger] self@[j]).federation.bytes@,
                            p.bytes@,
                        ),
                },
            decreases n - i,
        {
            if self.clients[i].federation.has_prefix(p) {
                match found {
                    Some(k) => {
                        return Err(ResolveError::Ambiguous);
                    },
                    None => {
                        found = Some(i);
                    },
                }
            }
            i += 1;
        }
        match found {
            Some(k) => {
                let h = &self.clients[k];
                assert(*h == self@[k as int]);
                assert forall|j: int| 0 <= j < self@.len() && self@[j] != *h
                    implies !spec_matches_prefix(
                    (#[trigger] self@[j]).federation.bytes@,
                    p.bytes@,
                ) by {
                    assert(j != k);
                }
                Ok(h)
            },
            None => Err(ResolveError::NotFound),
        }
    }

    /// Resolve with no selector given: the sole registered federation, or
    /// — with several registered — whatever the configured policy says.
    pub fn resolve_default(&self) -> (r: Result<&ClientHandle, ResolveError>)
        ensures
            match r {
                Ok(h) => {
                    &&& self@.len() >= 1
                    &&& (self@.len() == 1 || self.spec_policy() == MultiClientPolicy::UseFirst)
                    &&& *h == self@[0]
                },
                Err(ResolveError::NotFound) => self@.len() == 0,
                Err(ResolveError::Ambiguous) => {
                    &&& self@.len() > 1
                    &&& self.spec_policy() == MultiClientPolicy::RequireSole
                },
            },
    {
        if self.clients.len() == 0 {
            Err(ResolveError::NotFound)
        } else if self.clients.len() == 1 {
            Ok(&self.clients[0])
        } else {
            match self.policy {
                MultiClientPolicy::UseFirst => Ok(&self.clients[0]),
                MultiClientPolicy::RequireSole => Err(ResolveError::Ambiguous),
            }
        }
    }

    /// Resolve any selector: the explicit entry, the sole prefix match,
    /// or the configured default.
    pub fn resolve(&self, selector: &ClientSelector) -> (r: Result<&ClientHandle, ResolveError>)
        ensures
            match selector {
                ClientSelector::Explicit(id) => match r {
                    Ok(h) => exists|i: int|
                        0 <= i < self@.len() && self@[i] == *h && h.federation.bytes@ == id.bytes@,
                    Err(e) => e == ResolveError::NotFound && forall|i: int|
                        0 <= i < self@.len() ==> (#[trigger] self@[i]).federation.bytes@
                            != id.bytes@,
                },
                ClientSelector::Prefix(p) => match r {
                    Ok(h) => {
                        &&& exists|i: int|
                            0 <= i < self@.len() && self@[i] == *h
                        &&& spec_matches_prefix(h.federation.bytes@, p.bytes@)
                        &&& forall|i: int|
                            0 <= i < self@.len() && self@[i] != *h ==> !spec_matches_prefix(
                                (#[trigger] self@[i]).federation.bytes@,
                                p.bytes@,
                            )
                    },
                    Err(ResolveError::NotFound) => forall|i: int|
                        0 <= i < self@.len() ==> !spec_matches_prefix(
                            (#[trigger] self@[i]).federation.bytes@,
                            p.bytes@,
                        ),
                    Err(ResolveError::Ambiguous) => exists|i: int, j: int|
                        0 <= i < j < self@.len() && spec_matches_prefix(
                            (#[trigger] self@[i]).federation.bytes@,
                            p.bytes@,
                        ) && spec_matches_prefix(
                            (#[trigger] self@[j]).federation.bytes@,
                            p.bytes@,
                        ),
                },
                ClientSelector::DefaultClient => match r {
                    Ok(h) => self@.len() >= 1 && *h == self@[0] && (self@.len() == 1
                        || self.spec_policy() == MultiClientPolicy::UseFirst),
                    Err(ResolveError::NotFound) => self@.len() == 0,
                    Err(ResolveError::Ambiguous) => self@.len() > 1 && self.spec_policy()
                        == MultiClientPolicy::RequireSole,
                },
            },
    {
        match selector {
            ClientSelector::Explicit(id) => self.resolve_explicit(id),
            ClientSelector::Prefix(p) => self.resolve_prefix(p),
            ClientSelector::DefaultClient => self.resolve_default(),
        }
    }

    /// Resolve a request's optional federation id: the explicit entry
    /// when one is given, default resolution when none is, mapped to
    /// the error the caller reports.
    pub fn get_client(&self, federation_id: Option<&FederationIdentity>) -> (r: Result<
        &ClientHandle,
        GatewayError,
    >)
        ensures
            match federation_id {
                Some(id) => match r {
                    Ok(h) => exists|i: int|
                        0 <= i < self@.len() && self@[i] == *h && h.federation.bytes@ == id.bytes@,
                    Err(e) => e.kind == crate::error::ErrorKind::BadRequest && e.message@
                        == "No client found for federation id"@ && forall|i: int|
                        0 <= i < self@.len() ==> (#[trigger] self@[i]).federation.bytes@
                            != id.bytes@,
                },
                None => match r {
                    Ok(h) => self@.len() >= 1 && *h == self@[0] && (self@.len() == 1
                        || self.spec_policy() == MultiClientPolicy::UseFirst),
                    Err(e) => e.kind == crate::error::ErrorKind::BadRequest && e.message@
                        == "No client found for federation id"@ && (self@.len() == 0 || (
                    self@.len() > 1 && self.spec_policy() == MultiClientPolicy::RequireSole)),
                },
            },
    {
        let res = match federation_id {
            Some(id) => self.resolve_explicit(id),
            None => self.resolve_default(),
        };
        match res {
            Ok(h) => Ok(h),
            Err(_) => Err(GatewayError::bad_request("No client found for federation id")),
        }
    }

    /// Resolve an identity prefix, mapped to the error the caller
    /// reports: the sole match is served; no match and several matches
    /// are distinct bad requests, so exactly one match is never refused.
    pub fn get_client_by_prefix(&self, federation_id_prefix: &IdentityPrefix) -> (r: Result<
        &ClientHandle,
        GatewayError,
    >)
        ensures
            match r {
                Ok(h) => {
                    &&& exists|i: int|
                        0 <= i < self@.len() && self@[i] == *h
                    &&& spec_matches_prefix(h.federation.bytes@, federation_id_prefix.bytes@)
                    &&& forall|i: int|
                        0 <= i < self@.len() && self@[i] != *h ==> !spec_matches_prefix(
                            (#[trigger] self@[i]).federation.bytes@,
                            federation_id_prefix.bytes@,
                        )
                },
                Err(e) => {
                    &&& e.kind == crate::error::ErrorKind::BadRequest
                    &&& ((forall|i: int|
                        0 <= i < self@.len() ==> !spec_matches_prefix(
                            (#[trigger] self@[i]).federation.bytes@,
                            federation_id_prefix.bytes@,
                        )) ==> e.message@ == "No client found for federation id prefix"@)
                    &&& ((exists|i: int, j: int|
                        0 <= i < j < self@.len() && spec_matches_prefix(
                            (#[trigger] self@[i]).federation.bytes@,
                            federation_id_prefix.bytes@,
                        ) && spec_matches_prefix(
                            (#[trigger] self@[j]).federation.bytes@,
                            federation_id_prefix.bytes@,
                        )) ==> e.message@ == "Multiple clients found for federation id prefix"@)
                    &&& ((forall|i: int|
                        0 <= i < self@.len() ==> !spec_matches_prefix(
                            (#[trigger] self@[i]).federation.bytes@,
                            federation_id_prefix.bytes@,
                        )) || (exists|i: int, j: int|
                        0 <= i < j < self@.len() && spec_matches_prefix(
                            (#[trigger] self@[i]).federation.bytes@,
                            federation_id_prefix.bytes@,
                        ) && spec_matches_prefix(
                            (#[trigger] self@[j]).federation.bytes@,
                            federation_id_prefix.bytes@,
                        )))
                },
            },
    {
        match self.resolve_prefix(federation_id_prefix) {
            Ok(h) => Ok(h),
            Err(ResolveError::NotFound) => Err(
                GatewayError::bad_request("No client found for federation id prefix"),
            ),
            Err(ResolveError::Ambiguous) => Err(
                GatewayError::bad_request("Multiple clients found for federation id prefix"),
            ),
        }
    }
}

/// Law: explicit resolution does not rebind. In a well-formed registry
/// two handles answering the same identity are the same handle, and
/// registering a further, different federation leaves the answer for an
/// already registered identity exactly where it was.
pub proof fn lemma_resolve_explicit_stable(
    before: Seq<ClientHandle>,
    after: Seq<ClientHandle>,
    id: Seq<u8>,
    i: int,
    j: int,
)
    requires
        forall|a: int, b: int|
            0 <= a < b < after.len() ==> after[a].federation.bytes@ != after[b].federation.bytes@,
        before.len() <= after.len(),
        forall|a: int| 0 <= a < before.len() ==> before[a] == after[a],
        0 <= i < before.len(),
        0 <= j < after.len(),
        before[i].federation.bytes@ == id,
        after[j].federation.bytes@ == id,
    ensures
        i == j,
        after[j] == before[i],
{
    assert(after[i].federation.bytes@ == id);
    if i < j {
        assert(after[i].federation.bytes@ != after[j].federation.bytes@);
    }
    if j < i {
        assert(after[j].federation.bytes@ != after[i].federation.bytes@);
    }
}

} // verus!

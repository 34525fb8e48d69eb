//! An in-memory credential resolver with hierarchical tenant inheritance.
//!
//! Secrets are stored per tenant and looked up by reference key. When a
//! tenant has no secret under a key, resolution walks the tenant's ancestor
//! chain and returns the closest ancestor's secret; it returns nothing — not
//! an error — when no secret exists anywhere in the chain.

use vstd::prelude::*;

use crate::ids::TenantId;
use crate::secret::{SecretRef, SecretValue};

verus! {

/// One stored secret: a tenant-scoped key and its value bytes.
struct CredEntry {
    tenant: TenantId,
    key: SecretRef,
    value: Vec<u8>,
}

/// A stored secret exists for the tenant under the key.
pub open spec fn spec_has_secret(
    es: Seq<(TenantId, Seq<char>, Seq<u8>)>,
    t: TenantId,
    key: Seq<char>,
) -> bool {
    exists|i: int| 0 <= i < es.len() && (#[trigger] es[i]).0 == t && es[i].1 == key
}

/// The value of the tenant's secret under the key (unique by store
/// well-formedness).
pub open spec fn spec_secret_of(
    es: Seq<(TenantId, Seq<char>, Seq<u8>)>,
    t: TenantId,
    key: Seq<char>,
) -> Seq<u8> {
    let i = choose|i: int| 0 <= i < es.len() && (#[trigger] es[i]).0 == t && es[i].1 == key;
    es[i].2
}

/// The tenant has a recorded parent.
pub open spec fn spec_has_parent(ps: Seq<(TenantId, TenantId)>, t: TenantId) -> bool {
    exists|i: int| 0 <= i < ps.len() && (#[trigger] ps[i]).0 == t
}

/// The tenant's recorded parent (unique by store well-formedness).
pub open spec fn spec_parent_of(ps: Seq<(TenantId, TenantId)>, t: TenantId) -> TenantId {
    let i = choose|i: int| 0 <= i < ps.len() && (#[trigger] ps[i]).0 == t;
    ps[i].1
}

/// What hierarchical resolution returns: the secret of the closest tenant in
/// the ancestor chain (starting at `t` itself) that stores one under `key`,
/// or nothing when no tenant within `fuel` ancestry steps does.
pub open spec fn spec_resolve(
    es: Seq<(TenantId, Seq<char>, Seq<u8>)>,
    ps: Seq<(TenantId, TenantId)>,
    t: TenantId,
    key: Seq<char>,
    fuel: nat,
) -> Option<Seq<u8>>
    decreases fuel,
{
    if spec_has_secret(es, t, key) {
        Some(spec_secret_of(es, t, key))
    } else if spec_has_parent(ps, t) && fuel > 0 {
        spec_resolve(es, ps, spec_parent_of(ps, t), key, (fuel - 1) as nat)
    } else {
        None
    }
}

/// The ancestor chain of `t`: `t` itself, then its recorded ancestors, for
/// at most `fuel` parent steps.
pub open spec fn spec_chain(ps: Seq<(TenantId, TenantId)>, t: TenantId, fuel: nat) -> Seq<TenantId>
    decreases fuel,
{
    if spec_has_parent(ps, t) && fuel > 0 {
        seq![t] + spec_chain(ps, spec_parent_of(ps, t), (fuel - 1) as nat)
    } else {
        seq![t]
    }
}

/// Resolution finds nothing exactly when no tenant in the ancestor chain
/// stores a secret under the key: a missing secret is never silently passed
/// over, and a stored one is never missed.
pub proof fn lemma_resolve_none_iff_chain_empty(
    es: Seq<(TenantId, Seq<char>, Seq<u8>)>,
    ps: Seq<(TenantId, TenantId)>,
    t: TenantId,
    key: Seq<char>,
    fuel: nat,
)
    ensures
        (spec_resolve(es, ps, t, key, fuel) is None) <==> (forall|k: int|
            0 <= k < spec_chain(ps, t, fuel).len() ==> !spec_has_secret(
                es,
                #[trigger] spec_chain(ps, t, fuel)[k],
                key,
            )),
    decreases fuel,
{
    let chain = spec_chain(ps, t, fuel);
    assert(chain[0] == t);
    if spec_has_secret(es, t, key) {
    } else if spec_has_parent(ps, t) && fuel > 0 {
        let p = spec_parent_of(ps, t);
        lemma_resolve_none_iff_chain_empty(es, ps, p, key, (fuel - 1) as nat);
        let sub = spec_chain(ps, p, (fuel - 1) as nat);
        assert(chain == seq![t] + sub);
        assert forall|k: int| 0 <= k < sub.len() implies sub[k] == chain[k + 1] by {}
        if spec_resolve(es, ps, t, key, fuel) is None {
            assert forall|k: int| 0 <= k < chain.len() implies !spec_has_secret(
                es,
                #[trigger] chain[k],
                key,
            ) by {
                if k > 0 {
                    assert(chain[k] == sub[k - 1]);
                }
            }
        } else {
            assert(spec_resolve(es, ps, p, key, (fuel - 1) as nat) is Some);
            let k = choose|k: int| 0 <= k < sub.len() && spec_has_secret(es, #[trigger] sub[k], key);
            assert(spec_has_secret(es, chain[k + 1], key));
        }
    }
}

/// The in-memory credential store and resolver.
pub struct CredentialStore {
    entries: Vec<CredEntry>,
    parents: Vec<(TenantId, TenantId)>,
}

impl CredentialStore {
    /// The stored secrets: tenant, key and value of each entry.
    pub closed spec fn spec_entries(&self) -> Seq<(TenantId, Seq<char>, Seq<u8>)> {
        Seq::new(
            self.entries@.len(),
            |i: int|
                (self.entries@[i].tenant, self.entries@[i].key@, self.entries@[i].value@),
        )
    }

    /// The recorded parent links, child first.
    pub closed spec fn spec_parents(&self) -> Seq<(TenantId, TenantId)> {
        self.parents@
    }

    /// Well-formedness: one secret per tenant and key, one parent per tenant.
    pub open spec fn wf(&self) -> bool {
        &&& forall|i: int, j: int|
            0 <= i < j < self.spec_entries().len() ==> !((#[trigger] self.spec_entries()[i]).0 == (
            #[trigger] self.spec_entries()[j]).0 && self.spec_entries()[i].1
                == self.spec_entries()[j].1)
        &&& forall|i: int, j: int|
            0 <= i < j < self.spec_parents().len() ==> (#[trigger] self.spec_parents()[i]).0 != (
            #[trigger] self.spec_parents()[j]).0
    }

    /// An empty store.
    pub fn new() -> (r: CredentialStore)
        ensures
            r.wf(),
            r.spec_entries().len() == 0,
            r.spec_parents().len() == 0,
    {
        CredentialStore { entries: Vec::new(), parents: Vec::new() }
    }

    /// Index of the entry for the tenant and key, if any.
    fn find_entry(&self, tenant: TenantId, key: &SecretRef) -> (r: Option<usize>)
        ensures
            match r {
                Some(i) => i < self.spec_entries().len() && self.spec_entries()[i as int].0
                    == tenant && self.spec_entries()[i as int].1 == key@,
                None => !spec_has_secret(self.spec_entries(), tenant, key@),
            },
    {
        let n = self.entries.len();
        let mut i: usize = 0;
        while i < n
            invariant
                i <= n,
                n == self.entries@.len(),
                n == self.spec_entries().len(),
                forall|j: int|
                    0 <= j < i ==> !((#[trigger] self.spec_entries()[j]).0 == tenant
                        && self.spec_entries()[j].1 == key@),
            decreases n - i,
        {
            assert(self.spec_entries()[i as int] == (
                self.entries@[i as int].tenant,
                self.entries@[i as int].key@,
                self.entries@[i as int].value@,
            ));
            if self.entries[i].tenant == tenant && self.entries[i].key.matches(key) {
                return Some(i);
            }
            i = i + 1;
        }
        None
    }

    /// Stores a secret for the tenant under the key, creating or replacing
    /// it (upsert semantics). Other entries are untouched.
    pub fn put_secret(&mut self, tenant: TenantId, key: SecretRef, value: Vec<u8>)
        requires
            old(self).wf(),
        ensures
            final(self).wf(),
            final(self).spec_parents() == old(self).spec_parents(),
            spec_has_secret(final(self).spec_entries(), tenant, key@),
            spec_secret_of(final(self).spec_entries(), tenant, key@) == value@,
            forall|t2: TenantId, k2: Seq<char>|
                !(t2 == tenant && k2 == key@) ==> spec_has_secret(
                    final(self).spec_entries(),
                    t2,
                    k2,
                ) == spec_has_secret(old(self).spec_entries(), t2, k2),
            forall|t2: TenantId, k2: Seq<char>|
                !(t2 == tenant && k2 == key@) && spec_has_secret(old(self).spec_entries(), t2, k2)
                    ==> spec_secret_of(final(self).spec_entries(), t2, k2) == spec_secret_of(
                    old(self).spec_entries(),
                    t2,
                    k2,
                ),
    {
        let ghost kview = key@;
        match self.find_entry(tenant, &key) {
            Some(i) => {
                let entry = CredEntry { tenant, key, value };
                self.entries.set(i, entry);
                proof {
                    let es = self.spec_entries();
                    let prev = old(self).spec_entries();
                    assert(es =~= prev.update(i as int, (tenant, kview, entry.value@)));
                    lemma_entry_update_frame(prev, es, i as int, tenant, kview);
                    assert(self.spec_parents() =~= old(self).spec_parents());
                }
            },
            None => {
                let entry = CredEntry { tenant, key, value };
                self.entries.push(entry);
                proof {
                    let es = self.spec_entries();
                    let prev = old(self).spec_entries();
                    assert(es =~= prev.push((tenant, kview, entry.value@)));
                    lemma_entry_push_frame(prev, es, tenant, kview);
                    assert(self.spec_parents() =~= old(self).spec_parents());
                }
            },
        }
    }

    /// Records `parent` as the parent of `child` for hierarchical
    /// resolution. Fails (returning false, changing nothing) when the child
    /// already has a recorded parent.
    pub fn set_parent(&mut self, child: TenantId, parent: TenantId) -> (r: bool)
        requires
            old(self).wf(),
        ensures
            final(self).wf(),
            final(self).spec_entries() == old(self).spec_entries(),
            r == !spec_has_parent(old(self).spec_parents(), child),
            r ==> final(self).spec_parents() == old(self).spec_parents().push((child, parent)),
            !r ==> final(self).spec_parents() == old(self).spec_parents(),
    {
        let n = self.parents.len();
        let mut i: usize = 0;
        while i < n
            invariant
                *self == *old(self),
                old(self).wf(),
                i <= n,
                n == self.parents@.len(),
                forall|j: int| 0 <= j < i ==> (#[trigger] self.parents@[j]).0 != child,
            decreases n - i,
        {
            if self.parents[i].0 == child {
                proof {
                    assert(self.spec_entries() =~= old(self).spec_entries());
                }
                return false;
            }
            i = i + 1;
        }
        self.parents.push((child, parent));
        proof {
            assert(self.spec_entries() =~= old(self).spec_entries());
            let ps = self.spec_parents();
            let prev = old(self).spec_parents();
            assert forall|a: int, b: int| 0 <= a < b < ps.len() implies (#[trigger] ps[a]).0 != (
            #[trigger] ps[b]).0 by {
                if b == ps.len() - 1 {
                    assert(ps[a] == prev[a]);
                } else {
                    assert(ps[a] == prev[a] && ps[b] == prev[b]);
                }
            }
        }
        true
    }

    /// Recorded parent of the tenant, if any.
    fn parent_of(&self, t: TenantId) -> (r: Option<TenantId>)
        requires
            self.wf(),
        ensures
            match r {
                Some(p) => spec_has_parent(self.spec_parents(), t) && p == spec_parent_of(
                    self.spec_parents(),
                    t,
                ),
                None => !spec_has_parent(self.spec_parents(), t),
            },
    {
        let n = self.parents.len();
        let mut i: usize = 0;
        while i < n
            invariant
                self.wf(),
                i <= n,
                n == self.parents@.len(),
                forall|j: int| 0 <= j < i ==> (#[trigger] self.parents@[j]).0 != t,
            decreases n - i,
        {
            if self.parents[i].0 == t {
                proof {
                    let w = choose|w: int|
                        0 <= w < self.spec_parents().len() && (#[trigger] self.spec_parents()[w]).0
                            == t;
                    assert(w == i as int);
                }
                return Some(self.parents[i].1);
            }
            i = i + 1;
        }
        None
    }

    /// Resolution step: the tenant's own secret, or the closest ancestor's
    /// within `fuel` parent steps.
    fn resolve_from(&self, t: TenantId, key: &SecretRef, fuel: usize) -> (r: Option<SecretValue>)
        requires
            self.wf(),
        ensures
            match r {
                Some(v) => Some(v@) == spec_resolve(
                    self.spec_entries(),
                    self.spec_parents(),
                    t,
                    key@,
                    fuel as nat,
                ),
                None => spec_resolve(
                    self.spec_entries(),
                    self.spec_parents(),
                    t,
                    key@,
                    fuel as nat,
                ) is None,
            },
        decreases fuel,
    {
        match self.find_entry(t, key) {
            Some(i) => {
                proof {
                    let es = self.spec_entries();
                    let w = choose|w: int|
                        0 <= w < es.len() && (#[trigger] es[w]).0 == t && es[w].1 == key@;
                    assert(w == i as int);
                }
                assert(self.spec_entries()[i as int] == (
                    self.entries@[i as int].tenant,
                    self.entries@[i as int].key@,
                    self.entries@[i as int].value@,
                ));
                Some(SecretValue::new(vstd::slice::slice_to_vec(self.entries[i].value.as_slice())))
            },
            None => {
                match self.parent_of(t) {
                    Some(p) => {
                        if fuel == 0 {
                            None
                        } else {
                            self.resolve_from(p, key, fuel - 1)
                        }
                    },
                    None => None,
                }
            },
        }
    }

    /// Resolves the secret for the tenant under the key, walking the
    /// tenant's ancestor chain when the tenant itself stores none. Returns
    /// nothing — not an error — when no secret exists anywhere in the chain.
    pub fn resolve(&self, tenant: TenantId, key: &SecretRef) -> (r: Option<SecretValue>)
        requires
            self.wf(),
        ensures
            match r {
                Some(v) => Some(v@) == spec_resolve(
                    self.spec_entries(),
                    self.spec_parents(),
                    tenant,
                    key@,
                    self.spec_parents().len(),
                ),
                None => spec_resolve(
                    self.spec_entries(),
                    self.spec_parents(),
                    tenant,
                    key@,
                    self.spec_parents().len(),
                ) is None,
            },
            (r is None) <==> (forall|k: int|
                0 <= k < spec_chain(self.spec_parents(), tenant, self.spec_parents().len()).len()
                    ==> !spec_has_secret(
                    self.spec_entries(),
                    #[trigger] spec_chain(
                        self.spec_parents(),
                        tenant,
                        self.spec_parents().len(),
                    )[k],
                    key@,
                )),
    {
        let fuel = self.parents.len();
        proof {
            lemma_resolve_none_iff_chain_empty(
                self.spec_entries(),
                self.spec_parents(),
                tenant,
                key@,
                fuel as nat,
            );
        }
        self.resolve_from(tenant, key, fuel)
    }
}

/// Updating the entry at `i` (same tenant and key) leaves every other
/// tenant-and-key pair's presence and value unchanged, and keeps entries
/// unique.
proof fn lemma_entry_update_frame(
    prev: Seq<(TenantId, Seq<char>, Seq<u8>)>,
    es: Seq<(TenantId, Seq<char>, Seq<u8>)>,
    i: int,
    tenant: TenantId,
    key: Seq<char>,
)
    requires
        forall|a: int, b: int|
            0 <= a < b < prev.len() ==> !((#[trigger] prev[a]).0 == (#[trigger] prev[b]).0
                && prev[a].1 == prev[b].1),
        0 <= i < prev.len(),
        prev[i].0 == tenant,
        prev[i].1 == key,
        es.len() == prev.len(),
        es[i].0 == tenant,
        es[i].1 == key,
        forall|j: int| 0 <= j < prev.len() && j != i ==> #[trigger] es[j] == prev[j],
    ensures
        forall|a: int, b: int|
            0 <= a < b < es.len() ==> !((#[trigger] es[a]).0 == (#[trigger] es[b]).0 && es[a].1
                == es[b].1),
        spec_has_secret(es, tenant, key),
        spec_secret_of(es, tenant, key) == es[i].2,
        forall|t2: TenantId, k2: Seq<char>|
            !(t2 == tenant && k2 == key) ==> spec_has_secret(es, t2, k2) == spec_has_secret(
                prev,
                t2,
                k2,
            ),
        forall|t2: TenantId, k2: Seq<char>|
            !(t2 == tenant && k2 == key) && spec_has_secret(prev, t2, k2) ==> spec_secret_of(
                es,
                t2,
                k2,
            ) == spec_secret_of(prev, t2, k2),
{
    assert forall|a: int, b: int| 0 <= a < b < es.len() implies !((#[trigger] es[a]).0 == (
    #[trigger] es[b]).0 && es[a].1 == es[b].1) by {
        assert(es[a].0 == prev[a].0 && es[a].1 == prev[a].1);
        assert(es[b].0 == prev[b].0 && es[b].1 == prev[b].1);
    }
    assert(spec_has_secret(es, tenant, key));
    let w = choose|w: int| 0 <= w < es.len() && (#[trigger] es[w]).0 == tenant && es[w].1 == key;
    assert(w == i);
    assert forall|t2: TenantId, k2: Seq<char>| !(t2 == tenant && k2 == key) implies spec_has_secret(
        es,
        t2,
        k2,
    ) == spec_has_secret(prev, t2, k2) by {
        if spec_has_secret(prev, t2, k2) {
            let a = choose|a: int|
                0 <= a < prev.len() && (#[trigger] prev[a]).0 == t2 && prev[a].1 == k2;
            assert(a != i);
            assert(es[a].0 == t2 && es[a].1 == k2);
        }
        if spec_has_secret(es, t2, k2) {
            let a = choose|a: int| 0 <= a < es.len() && (#[trigger] es[a]).0 == t2 && es[a].1 == k2;
            assert(a != i);
            assert(prev[a].0 == t2 && prev[a].1 == k2);
        }
    }
    assert forall|t2: TenantId, k2: Seq<char>|
        !(t2 == tenant && k2 == key) && spec_has_secret(prev, t2, k2) implies spec_secret_of(
        es,
        t2,
        k2,
    ) == spec_secret_of(prev, t2, k2) by {
        let a = choose|a: int| 0 <= a < prev.len() && (#[trigger] prev[a]).0 == t2 && prev[a].1 == k2;
        assert(a != i);
        assert(es[a].0 == t2 && es[a].1 == k2);
        let b = choose|b: int| 0 <= b < es.len() && (#[trigger] es[b]).0 == t2 && es[b].1 == k2;
        assert(b == a);
    }
}

/// Appending an entry for a tenant-and-key pair not yet present leaves every
/// other pair's presence and value unchanged, and keeps entries unique.
proof fn lemma_entry_push_frame(
    prev: Seq<(TenantId, Seq<char>, Seq<u8>)>,
    es: Seq<(TenantId, Seq<char>, Seq<u8>)>,
    tenant: TenantId,
    key: Seq<char>,
)
    requires
        forall|a: int, b: int|
            0 <= a < b < prev.len() ==> !((#[trigger] prev[a]).0 == (#[trigger] prev[b]).0
                && prev[a].1 == prev[b].1),
        !spec_has_secret(prev, tenant, key),
        es.len() == prev.len() + 1,
        es[es.len() - 1].0 == tenant,
        es[es.len() - 1].1 == key,
        forall|j: int| 0 <= j < prev.len() ==> #[trigger] es[j] == prev[j],
    ensures
        forall|a: int, b: int|
            0 <= a < b < es.len() ==> !((#[trigger] es[a]).0 == (#[trigger] es[b]).0 && es[a].1
                == es[b].1),
        spec_has_secret(es, tenant, key),
        spec_secret_of(es, tenant, key) == es[es.len() - 1].2,
        forall|t2: TenantId, k2: Seq<char>|
            !(t2 == tenant && k2 == key) ==> spec_has_secret(es, t2, k2) == spec_has_secret(
                prev,
                t2,
                k2,
            ),
        forall|t2: TenantId, k2: Seq<char>|
            !(t2 == tenant && k2 == key) && spec_has_secret(prev, t2, k2) ==> spec_secret_of(
                es,
                t2,
                k2,
            ) == spec_secret_of(prev, t2, k2),
{
    let last = es.len() - 1;
    assert forall|a: int, b: int| 0 <= a < b < es.len() implies !((#[trigger] es[a]).0 == (
    #[trigger] es[b]).0 && es[a].1 == es[b].1) by {
        if b == last {
            assert(es[a] == prev[a]);
            if es[a].0 == tenant && es[a].1 == key {
                assert(spec_has_secret(prev, tenant, key));
            }
        } else {
            assert(es[a] == prev[a] && es[b] == prev[b]);
        }
    }
    assert(spec_has_secret(es, tenant, key));
    let w = choose|w: int| 0 <= w < es.len() && (#[trigger] es[w]).0 == tenant && es[w].1 == key;
    assert(w == last);
    assert forall|t2: TenantId, k2: Seq<char>| !(t2 == tenant && k2 == key) implies spec_has_secret(
        es,
        t2,
        k2,
    ) == spec_has_secret(prev, t2, k2) by {
        if spec_has_secret(prev, t2, k2) {
            let a = choose|a: int|
                0 <= a < prev.len() && (#[trigger] prev[a]).0 == t2 && prev[a].1 == k2;
            assert(es[a].0 == t2 && es[a].1 == k2);
        }
        if spec_has_secret(es, t2, k2) {
            let a = choose|a: int| 0 <= a < es.len() && (#[trigger] es[a]).0 == t2 && es[a].1 == k2;
            assert(a != last);
            assert(prev[a].0 == t2 && prev[a].1 == k2);
        }
    }
    assert forall|t2: TenantId, k2: Seq<char>|
        !(t2 == tenant && k2 == key) && spec_has_secret(prev, t2, k2) implies spec_secret_of(
        es,
        t2,
        k2,
    ) == spec_secret_of(prev, t2, k2) by {
        let a = choose|a: int| 0 <= a < prev.len() && (#[trigger] prev[a]).0 == t2 && prev[a].1 == k2;
        assert(es[a].0 == t2 && es[a].1 == k2);
        let b = choose|b: int| 0 <= b < es.len() && (#[trigger] es[b]).0 == t2 && es[b].1 == k2;
        assert(b == a);
    }
}

} // verus!

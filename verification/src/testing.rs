//! Builders for wired test environments.

use vstd::prelude::*;
use vstd::string::StringSliceAdditionalSpecFns;
use vstd::string::StrSliceExecFns;

use crate::control_plane::ControlPlane;
use crate::credential::{CredentialStore, spec_has_secret};
use crate::ids::TenantId;
use crate::secret::{CredStoreError, SecretRef, valid_secret_ref};

verus! {

/// Builder for a control-plane test environment with pre-loaded credentials.
pub struct TestCpBuilder {
    credentials: Vec<(String, String)>,
}

impl Default for TestCpBuilder {
    /// The default builder has no credentials.
    fn default() -> (r: TestCpBuilder)
        ensures
            r.spec_credentials().len() == 0,
    {
        TestCpBuilder::new()
    }
}

impl TestCpBuilder {
    /// The credential pairs (key, value) loaded so far.
    pub closed spec fn spec_credentials(&self) -> Seq<(String, String)> {
        self.credentials@
    }

    /// A builder with no credentials.
    pub fn new() -> (r: TestCpBuilder)
        ensures
            r.spec_credentials().len() == 0,
    {
        TestCpBuilder { credentials: Vec::new() }
    }

    /// Pre-loads credentials (key, value) for the credential resolver.
    pub fn with_credentials(self, creds: Vec<(String, String)>) -> (r: TestCpBuilder)
        ensures
            r.spec_credentials() == creds@,
    {
        TestCpBuilder { credentials: creds }
    }

    /// Builds an empty control plane and a credential store holding every
    /// pre-loaded credential under the given tenant. Fails when any
    /// credential key is not a valid secret reference.
    pub fn build_for_tenant(self, tenant: TenantId) -> (r: Result<
        (ControlPlane, CredentialStore),
        CredStoreError,
    >)
        ensures
            (r is Ok) <==> (forall|i: int|
                0 <= i < self.spec_credentials().len() ==> valid_secret_ref(
                    (#[trigger] self.spec_credentials()[i]).0@,
                )),
            r matches Err(e) ==> e matches CredStoreError::InvalidSecretRef(_),
            r matches Ok((cp, store)) ==> {
                &&& cp.wf()
                &&& cp.spec_upstreams().len() == 0
                &&& cp.spec_routes().len() == 0
                &&& store.wf()
                &&& store.spec_parents().len() == 0
                &&& forall|i: int|
                    0 <= i < self.spec_credentials().len() ==> spec_has_secret(
                        store.spec_entries(),
                        tenant,
                        (#[trigger] self.spec_credentials()[i]).0@,
                    )
            },
    {
        let cp = ControlPlane::new();
        let mut store = CredentialStore::new();
        let n = self.credentials.len();
        let mut i: usize = 0;
        while i < n
            invariant
                i <= n,
                n == self.credentials@.len(),
                store.wf(),
                store.spec_parents().len() == 0,
                forall|j: int|
                    0 <= j < i ==> valid_secret_ref((#[trigger] self.credentials@[j]).0@),
                forall|j: int|
                    0 <= j < i ==> spec_has_secret(
                        store.spec_entries(),
                        tenant,
                        (#[trigger] self.credentials@[j]).0@,
                    ),
            decreases n - i,
        {
            let key = match SecretRef::new(self.credentials[i].0.as_str()) {
                Ok(k) => k,
                Err(e) => {
                    proof {
                        assert(!valid_secret_ref(
                            (self.spec_credentials()[i as int]).0@,
                        ));
                    }
                    return Err(e);
                },
            };
            let value = self.credentials[i].1.as_str().as_bytes_vec();
            store.put_secret(tenant, key, value);
            i = i + 1;
        }
        Ok((cp, store))
    }
}

} // verus!

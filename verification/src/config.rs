//! The durable gateway configuration: upstream backends and routes.

use vstd::prelude::*;

use crate::ids::{RouteId, TenantId, UpstreamId};
use crate::routing::{Method, PathPattern};
use crate::secret::SecretRef;

verus! {

/// A configured backend target the gateway can proxy to.
pub struct Upstream {
    /// Unique identity of this upstream.
    pub id: UpstreamId,
    /// Base network address outbound calls are sent to.
    pub base_addr: String,
    /// Default per-call timeout, in milliseconds.
    pub timeout_ms: u64,
    /// Credential to inject on outbound calls; `None` means no auth
    /// injection. A `SecretRef` is non-empty by construction, so an upstream
    /// requiring auth always carries a usable reference.
    pub credential: Option<SecretRef>,
    /// The tenant owning this upstream's configuration; credentials are
    /// resolved against this tenant, not necessarily the caller's.
    pub owner_tenant: TenantId,
}

/// A mapping from an inbound request pattern (scoped to a tenant) to an
/// upstream, with a path-rewrite rule.
pub struct Route {
    /// Unique identity of this route.
    pub id: RouteId,
    /// The tenant whose inbound requests this route serves.
    pub tenant: TenantId,
    /// The request method this route matches.
    pub method: Method,
    /// The inbound path pattern this route matches.
    pub pattern: PathPattern,
    /// The upstream that matched requests are proxied to.
    pub upstream_id: UpstreamId,
    /// Replacement segments for the matched literal prefix; the wildcard
    /// tail, if any, is kept.
    pub rewrite: Vec<String>,
}

impl Route {
    /// When this route matches an inbound request.
    pub open spec fn spec_matches_request(
        &self,
        tenant: TenantId,
        method: Method,
        path: Seq<Seq<char>>,
    ) -> bool {
        &&& self.tenant == tenant
        &&& self.method == method
        &&& self.pattern.spec_matches(path)
    }

    /// Decides whether this route matches an inbound request.
    pub fn matches_request(&self, tenant: TenantId, method: Method, path: &Vec<String>) -> (r:
        bool)
        ensures
            r == self.spec_matches_request(tenant, method, path.deep_view()),
    {
        if !(self.tenant == tenant) {
            return false;
        }
        if !(self.method == method) {
            return false;
        }
        self.pattern.matches(path)
    }
}

} // verus!

//! The control plane: the only writer of gateway configuration.
//!
//! Holds the upstream and route tables, keeps their identities unique, and
//! enforces referential integrity: a route can only be created against an
//! existing upstream, and an upstream still referenced by a route cannot be
//! deleted. The data plane reads the tables through [`ControlPlane::resolve`].

use vstd::prelude::*;

use crate::config::{Route, Upstream};
use crate::ids::{RouteId, TenantId, UpstreamId};
use crate::routing::Method;

verus! {

/// Errors of control-plane configuration operations.
#[derive(Clone, Copy, Debug, PartialEq, Eq, Structural)]
pub enum ControlPlaneError {
    /// An entity with the same identity already exists, or the entity is
    /// still referenced and cannot be deleted.
    Conflict,
    /// No entity with the given identity exists.
    NotFound,
    /// The referenced upstream does not exist.
    InvalidReference,
}

/// Upstream identities are pairwise distinct.
pub open spec fn upstream_ids_unique(us: Seq<Upstream>) -> bool {
    forall|i: int, j: int|
        0 <= i < j < us.len() ==> (#[trigger] us[i]).id != (#[trigger] us[j]).id
}

/// Route identities are pairwise distinct.
pub open spec fn route_ids_unique(rs: Seq<Route>) -> bool {
    forall|i: int, j: int|
        0 <= i < j < rs.len() ==> (#[trigger] rs[i]).id != (#[trigger] rs[j]).id
}

/// Some upstream in the table carries the given identity.
pub open spec fn spec_has_upstream(us: Seq<Upstream>, id: UpstreamId) -> bool {
    exists|i: int| 0 <= i < us.len() && (#[trigger] us[i]).id == id
}

/// Some route in the table carries the given identity.
pub open spec fn spec_has_route(rs: Seq<Route>, id: RouteId) -> bool {
    exists|i: int| 0 <= i < rs.len() && (#[trigger] rs[i]).id == id
}

/// Some route in the table targets the given upstream.
pub open spec fn spec_upstream_referenced(rs: Seq<Route>, id: UpstreamId) -> bool {
    exists|i: int| 0 <= i < rs.len() && (#[trigger] rs[i]).upstream_id == id
}

/// Every route targets an existing upstream.
pub open spec fn routes_reference_upstreams(rs: Seq<Route>, us: Seq<Upstream>) -> bool {
    forall|i: int| 0 <= i < rs.len() ==> spec_has_upstream(us, (#[trigger] rs[i]).upstream_id)
}

/// `i` is the first route in `rs` that matches the inbound request.
pub open spec fn spec_first_route_match(
    rs: Seq<Route>,
    tenant: TenantId,
    method: Method,
    path: Seq<Seq<char>>,
    i: int,
) -> bool {
    &&& 0 <= i < rs.len()
    &&& rs[i].spec_matches_request(tenant, method, path)
    &&& forall|j: int| 0 <= j < i ==> !(#[trigger] rs[j]).spec_matches_request(tenant, method, path)
}

/// The upstream carrying the given identity (unique when identities are
/// pairwise distinct).
pub open spec fn spec_upstream_by_id(us: Seq<Upstream>, id: UpstreamId) -> Upstream {
    us[choose|i: int| 0 <= i < us.len() && (#[trigger] us[i]).id == id]
}

/// Some route in the table matches the inbound request.
pub open spec fn spec_some_route_matches(
    rs: Seq<Route>,
    tenant: TenantId,
    method: Method,
    path: Seq<Seq<char>>,
) -> bool {
    exists|i: int| 0 <= i < rs.len() && (#[trigger] rs[i]).spec_matches_request(tenant, method, path)
}

/// The owner of the configuration tables.
pub struct ControlPlane {
    upstreams: Vec<Upstream>,
    routes: Vec<Route>,
}

impl ControlPlane {
    /// The upstream table, in insertion order.
    pub closed spec fn spec_upstreams(&self) -> Seq<Upstream> {
        self.upstreams@
    }

    /// The route table, in insertion order.
    pub closed spec fn spec_routes(&self) -> Seq<Route> {
        self.routes@
    }

    /// Well-formedness: unique identities and referential integrity.
    pub open spec fn wf(&self) -> bool {
        &&& upstream_ids_unique(self.spec_upstreams())
        &&& route_ids_unique(self.spec_routes())
        &&& routes_reference_upstreams(self.spec_routes(), self.spec_upstreams())
    }

    /// An empty configuration.
    pub fn new() -> (cp: ControlPlane)
        ensures
            cp.wf(),
            cp.spec_upstreams().len() == 0,
            cp.spec_routes().len() == 0,
    {
        ControlPlane { upstreams: Vec::new(), routes: Vec::new() }
    }

    /// Index of the upstream with the given identity, if any.
    fn find_upstream(&self, id: UpstreamId) -> (r: Option<usize>)
        ensures
            match r {
                Some(i) => i < self.spec_upstreams().len() && self.spec_upstreams()[i as int].id
                    == id,
                None => !spec_has_upstream(self.spec_upstreams(), id),
            },
    {
        let n = self.upstreams.len();
        let mut i: usize = 0;
        while i < n
            invariant
                i <= n,
                n == self.upstreams@.len(),
                forall|j: int| 0 <= j < i ==> (#[trigger] self.upstreams@[j]).id != id,
            decreases n - i,
        {
            if self.upstreams[i].id == id {
                return Some(i);
            }
            i = i + 1;
        }
        None
    }

    /// Index of the route with the given identity, if any.
    fn find_route(&self, id: RouteId) -> (r: Option<usize>)
        ensures
            match r {
                Some(i) => i < self.spec_routes().len() && self.spec_routes()[i as int].id == id,
                None => !spec_has_route(self.spec_routes(), id),
            },
    {
        let n = self.routes.len();
        let mut i: usize = 0;
        while i < n
            invariant
                i <= n,
                n == self.routes@.len(),
                forall|j: int| 0 <= j < i ==> (#[trigger] self.routes@[j]).id != id,
            decreases n - i,
        {
            if self.routes[i].id == id {
                return Some(i);
            }
            i = i + 1;
        }
        None
    }

    /// Creates an upstream. Fails with `Conflict` when an upstream with the
    /// same identity already exists; never silently overwrites.
    pub fn create_upstream(&mut self, upstream: Upstream) -> (r: Result<(), ControlPlaneError>)
        requires
            old(self).wf(),
        ensures
            final(self).wf(),
            final(self).spec_routes() == old(self).spec_routes(),
            (r is Ok) <==> !spec_has_upstream(old(self).spec_upstreams(), upstream.id),
            r is Ok ==> final(self).spec_upstreams() == old(self).spec_upstreams().push(upstream),
            r is Err ==> final(self).spec_upstreams() == old(self).spec_upstreams() && r == Err::<
                (),
                ControlPlaneError,
            >(ControlPlaneError::Conflict),
    {
        match self.find_upstream(upstream.id) {
            Some(_) => Err(ControlPlaneError::Conflict),
            None => {
                self.upstreams.push(upstream);
                proof {
                    let us = self.spec_upstreams();
                    let prev = old(self).spec_upstreams();
                    assert forall|a: int, b: int| 0 <= a < b < us.len() implies (#[trigger] us[a]).id
                        != (#[trigger] us[b]).id by {
                        if b == us.len() - 1 {
                            assert(us[a] == prev[a]);
                            assert(!spec_has_upstream(prev, upstream.id));
                            assert(prev[a].id != upstream.id);
                        } else {
                            assert(us[a] == prev[a] && us[b] == prev[b]);
                        }
                    }
                    assert forall|k: int|
                        0 <= k < self.spec_routes().len() implies spec_has_upstream(
                        us,
                        (#[trigger] self.spec_routes()[k]).upstream_id,
                    ) by {
                        let uid = self.spec_routes()[k].upstream_id;
                        let w = choose|w: int|
                            0 <= w < prev.len() && (#[trigger] prev[w]).id == uid;
                        assert(us[w].id == uid);
                    }
                }
                Ok(())
            },
        }
    }

    /// The upstream with the given identity, if any.
    pub fn get_upstream(&self, id: UpstreamId) -> (r: Option<&Upstream>)
        ensures
            (r is Some) == spec_has_upstream(self.spec_upstreams(), id),
            r matches Some(u) ==> u.id == id && self.spec_upstreams().contains(*u),
    {
        match self.find_upstream(id) {
            Some(i) => {
                let u = &self.upstreams[i];
                proof {
                    assert(self.spec_upstreams().contains(self.spec_upstreams()[i as int]));
                }
                Some(u)
            },
            None => None,
        }
    }

    /// All configured upstreams, in insertion order.
    pub fn list_upstreams(&self) -> (r: &Vec<Upstream>)
        ensures
            r@ == self.spec_upstreams(),
    {
        &self.upstreams
    }

    /// Deletes the upstream with the given identity. Fails with `NotFound`
    /// when no such upstream exists, and with `Conflict` when a route still
    /// references it (routes must be deleted first).
    pub fn delete_upstream(&mut self, id: UpstreamId) -> (r: Result<(), ControlPlaneError>)
        requires
            old(self).wf(),
        ensures
            final(self).wf(),
            final(self).spec_routes() == old(self).spec_routes(),
            !spec_has_upstream(old(self).spec_upstreams(), id) ==> r == Err::<
                (),
                ControlPlaneError,
            >(ControlPlaneError::NotFound) && final(self).spec_upstreams() == old(self).spec_upstreams(),
            spec_has_upstream(old(self).spec_upstreams(), id) && spec_upstream_referenced(
                old(self).spec_routes(),
                id,
            ) ==> r == Err::<(), ControlPlaneError>(ControlPlaneError::Conflict) && final(self).spec_upstreams() == old(self).spec_upstreams(),
            (r is Ok) <==> (spec_has_upstream(old(self).spec_upstreams(), id)
                && !spec_upstream_referenced(old(self).spec_routes(), id)),
            r is Ok ==> exists|i: int|
                0 <= i < old(self).spec_upstreams().len() && (#[trigger] old(self).spec_upstreams()[i]).id == id && final(self).spec_upstreams() == old(self).spec_upstreams().remove(i),
            r is Ok ==> !spec_has_upstream(final(self).spec_upstreams(), id),
    {
        let found = self.find_upstream(id);
        match found {
            None => {
                proof {
                    assert(!spec_has_upstream(self.spec_upstreams(), id));
                }
                Err(ControlPlaneError::NotFound)
            },
            Some(i) => {
                let n = self.routes.len();
                let mut j: usize = 0;
                while j < n
                    invariant
                        *self == *old(self),
                        self.wf(),
                        j <= n,
                        n == self.routes@.len(),
                        spec_has_upstream(self.spec_upstreams(), id),
                        forall|k: int| 0 <= k < j ==> (#[trigger] self.routes@[k]).upstream_id != id,
                    decreases n - j,
                {
                    if self.routes[j].upstream_id == id {
                        return Err(ControlPlaneError::Conflict);
                    }
                    j = j + 1;
                }
                proof {
                    assert(spec_has_upstream(self.spec_upstreams(), id));
                    assert(!spec_upstream_referenced(self.spec_routes(), id));
                }
                self.upstreams.remove(i);
                proof {
                    assert forall|k: int|
                        0 <= k < self.spec_routes().len() implies spec_has_upstream(
                        self.spec_upstreams(),
                        (#[trigger] self.spec_routes()[k]).upstream_id,
                    ) by {
                        let uid = self.spec_routes()[k].upstream_id;
                        assert(spec_has_upstream(old(self).spec_upstreams(), uid));
                        let w = choose|w: int|
                            0 <= w < old(self).spec_upstreams().len() && (#[trigger] old(self).spec_upstreams()[w]).id == uid;
                        assert(uid != id);
                        if w < i {
                            assert(self.spec_upstreams()[w].id == uid);
                        } else {
                            assert(self.spec_upstreams()[w - 1].id == uid);
                        }
                    }
                    assert forall|k: int|
                        0 <= k < self.spec_upstreams().len() implies (#[trigger] self
                            .spec_upstreams()[k]).id != id by {
                        if k < i {
                            assert(self.spec_upstreams()[k] == old(self).spec_upstreams()[k]);
                        } else {
                            assert(self.spec_upstreams()[k] == old(self).spec_upstreams()[k + 1]);
                        }
                    }
                }
                Ok(())
            },
        }
    }

    /// Creates a route. Fails with `Conflict` when a route with the same
    /// identity already exists, and otherwise with `InvalidReference` when
    /// the target upstream does not exist.
    pub fn create_route(&mut self, route: Route) -> (r: Result<(), ControlPlaneError>)
        requires
            old(self).wf(),
        ensures
            final(self).wf(),
            final(self).spec_upstreams() == old(self).spec_upstreams(),
            spec_has_route(old(self).spec_routes(), route.id) ==> r == Err::<
                (),
                ControlPlaneError,
            >(ControlPlaneError::Conflict) && final(self).spec_routes() == old(self).spec_routes(),
            !spec_has_route(old(self).spec_routes(), route.id) && !spec_has_upstream(
                old(self).spec_upstreams(),
                route.upstream_id,
            ) ==> r == Err::<(), ControlPlaneError>(ControlPlaneError::InvalidReference) && final(self).spec_routes() == old(self).spec_routes(),
            (r is Ok) <==> (!spec_has_route(old(self).spec_routes(), route.id)
                && spec_has_upstream(old(self).spec_upstreams(), route.upstream_id)),
            r is Ok ==> final(self).spec_routes() == old(self).spec_routes().push(route),
    {
        match self.find_route(route.id) {
            Some(_) => Err(ControlPlaneError::Conflict),
            None => {
                match self.find_upstream(route.upstream_id) {
                    None => Err(ControlPlaneError::InvalidReference),
                    Some(_) => {
                        self.routes.push(route);
                        Ok(())
                    },
                }
            },
        }
    }

    /// The route with the given identity, if any.
    pub fn get_route(&self, id: RouteId) -> (r: Option<&Route>)
        ensures
            (r is Some) == spec_has_route(self.spec_routes(), id),
            r matches Some(rt) ==> rt.id == id && self.spec_routes().contains(*rt),
    {
        match self.find_route(id) {
            Some(i) => {
                let rt = &self.routes[i];
                proof {
                    assert(self.spec_routes().contains(self.spec_routes()[i as int]));
                }
                Some(rt)
            },
            None => None,
        }
    }

    /// All configured routes, in insertion order.
    pub fn list_routes(&self) -> (r: &Vec<Route>)
        ensures
            r@ == self.spec_routes(),
    {
        &self.routes
    }

    /// Deletes the route with the given identity. Fails with `NotFound` when
    /// no such route exists.
    pub fn delete_route(&mut self, id: RouteId) -> (r: Result<(), ControlPlaneError>)
        requires
            old(self).wf(),
        ensures
            final(self).wf(),
            final(self).spec_upstreams() == old(self).spec_upstreams(),
            (r is Ok) <==> spec_has_route(old(self).spec_routes(), id),
            r is Err ==> r == Err::<(), ControlPlaneError>(ControlPlaneError::NotFound) && final(self).spec_routes() == old(self).spec_routes(),
            r is Ok ==> exists|i: int|
                0 <= i < old(self).spec_routes().len() && (#[trigger] old(self).spec_routes()[i]).id == id && final(self).spec_routes() == old(self).spec_routes().remove(i),
    {
        match self.find_route(id) {
            None => Err(ControlPlaneError::NotFound),
            Some(i) => {
                self.routes.remove(i);
                proof {
                    assert forall|k: int|
                        0 <= k < self.spec_routes().len() implies spec_has_upstream(
                        self.spec_upstreams(),
                        (#[trigger] self.spec_routes()[k]).upstream_id,
                    ) by {
                        if k < i {
                            assert(self.spec_routes()[k] == old(self).spec_routes()[k]);
                        } else {
                            assert(self.spec_routes()[k] == old(self).spec_routes()[k + 1]);
                        }
                    }
                }
                Ok(())
            },
        }
    }

    /// Resolves an inbound request against the route table: the first route
    /// (in insertion order) whose tenant, method and pattern match, together
    /// with its target upstream. Earlier routes shadow later overlapping
    /// ones; ambiguous patterns are permitted and resolved first-match-wins.
    pub fn resolve(&self, tenant: TenantId, method: Method, path: &Vec<String>) -> (r: Option<
        (&Route, &Upstream),
    >)
        requires
            self.wf(),
        ensures
            (r is Some) == spec_some_route_matches(
                self.spec_routes(),
                tenant,
                method,
                path.deep_view(),
            ),
            r matches Some((rt, us)) ==> exists|i: int|
                spec_first_route_match(self.spec_routes(), tenant, method, path.deep_view(), i)
                    && *rt == self.spec_routes()[i] && us.id == rt.upstream_id
                    && self.spec_upstreams().contains(*us) && *us == spec_upstream_by_id(
                    self.spec_upstreams(),
                    rt.upstream_id,
                ),
    {
        let n = self.routes.len();
        let mut i: usize = 0;
        while i < n
            invariant
                i <= n,
                n == self.routes@.len(),
                self.wf(),
                forall|j: int|
                    0 <= j < i ==> !(#[trigger] self.routes@[j]).spec_matches_request(
                        tenant,
                        method,
                        path.deep_view(),
                    ),
            decreases n - i,
        {
            let route = &self.routes[i];
            if route.matches_request(tenant, method, path) {
                match self.find_upstream(route.upstream_id) {
                    Some(u) => {
                        let upstream = &self.upstreams[u];
                        proof {
                            assert(spec_first_route_match(
                                self.spec_routes(),
                                tenant,
                                method,
                                path.deep_view(),
                                i as int,
                            ));
                            assert(self.spec_upstreams().contains(
                                self.spec_upstreams()[u as int],
                            ));
                            let w = choose|w: int|
                                0 <= w < self.spec_upstreams().len() && (#[trigger] self
                                    .spec_upstreams()[w]).id == self.spec_routes()[
                                i as int].upstream_id;
                            assert(w == u as int);
                        }
                        return Some((route, upstream));
                    },
                    None => {
                        // Unreachable: referential integrity guarantees the
                        // upstream exists.
                        proof {
                            assert(spec_has_upstream(
                                self.spec_upstreams(),
                                self.spec_routes()[i as int].upstream_id,
                            ));
                        }
                        assert(false);
                        return None;
                    },
                }
            }
            i = i + 1;
        }
        None
    }
}

} // verus!

use oagw::config::{Route, Upstream};
use oagw::control_plane::{ControlPlane, ControlPlaneError};
use oagw::ids::{RouteId, TenantId, UpstreamId};
use oagw::routing::{Method, PathPattern};
use oagw::secret::SecretRef;

fn upstream(id: u128) -> Upstream {
    Upstream {
        id: UpstreamId(id),
        base_addr: "https://api.example.com".to_string(),
        timeout_ms: 3000,
        credential: Some(SecretRef::new("K1").unwrap()),
        owner_tenant: TenantId(1),
    }
}

fn route(id: u128, upstream_id: u128) -> Route {
    Route {
        id: RouteId(id),
        tenant: TenantId(1),
        method: Method::Get,
        pattern: PathPattern {
            segments: vec!["proxy".to_string()],
            wildcard: true,
        },
        upstream_id: UpstreamId(upstream_id),
        rewrite: vec!["v1".to_string()],
    }
}

#[test]
fn create_upstream_conflict_on_same_id() {
    let mut cp = ControlPlane::new();
    assert!(cp.create_upstream(upstream(1)).is_ok());
    assert_eq!(
        cp.create_upstream(upstream(1)),
        Err(ControlPlaneError::Conflict)
    );
    assert_eq!(cp.list_upstreams().len(), 1);
}

#[test]
fn delete_upstream_not_found() {
    let mut cp = ControlPlane::new();
    assert_eq!(
        cp.delete_upstream(UpstreamId(9)),
        Err(ControlPlaneError::NotFound)
    );
}

#[test]
fn create_route_invalid_reference() {
    let mut cp = ControlPlane::new();
    assert_eq!(
        cp.create_route(route(1, 9)),
        Err(ControlPlaneError::InvalidReference)
    );
    assert!(cp.list_routes().is_empty());
}

#[test]
fn delete_upstream_conflict_while_referenced() {
    let mut cp = ControlPlane::new();
    cp.create_upstream(upstream(1)).unwrap();
    cp.create_route(route(1, 1)).unwrap();
    assert_eq!(
        cp.delete_upstream(UpstreamId(1)),
        Err(ControlPlaneError::Conflict)
    );
    cp.delete_route(RouteId(1)).unwrap();
    assert!(cp.delete_upstream(UpstreamId(1)).is_ok());
    assert!(cp.list_upstreams().is_empty());
}

#[test]
fn route_crud_round_trip() {
    let mut cp = ControlPlane::new();
    cp.create_upstream(upstream(1)).unwrap();
    cp.create_route(route(7, 1)).unwrap();
    assert!(cp.get_route(RouteId(7)).is_some());
    assert!(cp.get_upstream(UpstreamId(1)).is_some());
    assert!(cp.get_upstream(UpstreamId(2)).is_none());
    assert_eq!(
        cp.create_route(route(7, 1)),
        Err(ControlPlaneError::Conflict)
    );
    assert_eq!(
        cp.delete_route(RouteId(8)),
        Err(ControlPlaneError::NotFound)
    );
    cp.delete_route(RouteId(7)).unwrap();
    assert!(cp.get_route(RouteId(7)).is_none());
}

#[test]
fn resolve_is_first_match_wins() {
    let mut cp = ControlPlane::new();
    cp.create_upstream(upstream(1)).unwrap();
    cp.create_upstream(Upstream {
        id: UpstreamId(2),
        base_addr: "https://other.example.com".to_string(),
        timeout_ms: 1000,
        credential: None,
        owner_tenant: TenantId(1),
    })
    .unwrap();
    cp.create_route(route(1, 1)).unwrap();
    cp.create_route(route(2, 2)).unwrap();
    let path = vec!["proxy".to_string(), "items".to_string()];
    let (matched, target) = cp.resolve(TenantId(1), Method::Get, &path).unwrap();
    assert_eq!(matched.id, RouteId(1));
    assert_eq!(target.id, UpstreamId(1));
}

#[test]
fn resolve_respects_tenant_and_method() {
    let mut cp = ControlPlane::new();
    cp.create_upstream(upstream(1)).unwrap();
    cp.create_route(route(1, 1)).unwrap();
    let path = vec!["proxy".to_string(), "items".to_string()];
    assert!(cp.resolve(TenantId(2), Method::Get, &path).is_none());
    assert!(cp.resolve(TenantId(1), Method::Post, &path).is_none());
    assert!(cp
        .resolve(TenantId(1), Method::Get, &vec!["other".to_string()])
        .is_none());
}

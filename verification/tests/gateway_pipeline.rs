use oagw::config::{Route, Upstream};
use oagw::control_plane::ControlPlane;
use oagw::credential::CredentialStore;
use oagw::dispatch::{
    DispatchError, GatewayError, UpstreamResponse, complete_dispatch, effective_deadline,
};
use oagw::ids::{RouteId, SubjectId, TenantId, UpstreamId};
use oagw::pipeline::{RequestCtx, run_request};
use oagw::policy::{
    AllowingAuthZResolverClient, CapturingAuthZResolverClient, DenyingAuthZResolverClient,
    EvalError, EvaluationResponse, build_evaluation_request, normalize_decision,
};
use oagw::routing::{Method, PathPattern};
use oagw::secret::{SecretRef, SecretValue};
use oagw::testing::TestCpBuilder;

const T1: TenantId = TenantId(1);
const S1: SubjectId = SubjectId(10);

fn scenario_cp() -> ControlPlane {
    let mut cp = ControlPlane::new();
    cp.create_upstream(Upstream {
        id: UpstreamId(1),
        base_addr: "https://api.example.com".to_string(),
        timeout_ms: 3000,
        credential: Some(SecretRef::new("K1").unwrap()),
        owner_tenant: T1,
    })
    .unwrap();
    cp.create_route(Route {
        id: RouteId(1),
        tenant: T1,
        method: Method::Get,
        pattern: PathPattern {
            segments: vec!["proxy".to_string()],
            wildcard: true,
        },
        upstream_id: UpstreamId(1),
        rewrite: vec!["v1".to_string()],
    })
    .unwrap();
    cp
}

fn scenario_ctx() -> RequestCtx {
    RequestCtx {
        tenant: T1,
        subject: S1,
        method: Method::Get,
        path: vec!["proxy".to_string(), "items".to_string()],
        headers: vec![("accept".to_string(), "application/json".to_string())],
        body: Vec::new(),
        caller_timeout_ms: None,
    }
}

fn allow() -> Result<EvaluationResponse, EvalError> {
    AllowingAuthZResolverClient.evaluate(build_evaluation_request(T1, S1, T1))
}

fn deny() -> Result<EvaluationResponse, EvalError> {
    DenyingAuthZResolverClient.evaluate(build_evaluation_request(T1, S1, T1))
}

fn upstream_ok() -> Result<UpstreamResponse, DispatchError> {
    Ok(UpstreamResponse {
        status: 200,
        headers: vec![("content-type".to_string(), "application/json".to_string())],
        body: b"[]".to_vec(),
    })
}

#[test]
fn end_to_end_allow_dispatches_rewritten_call() {
    let cp = scenario_cp();
    let outcome = run_request(
        &cp,
        scenario_ctx(),
        allow(),
        Some(SecretValue::from_text("k1-secret-bytes")),
        upstream_ok(),
    );
    let call = outcome.call.expect("the request must reach dispatch");
    assert_eq!(call.request.base_addr, "https://api.example.com");
    assert_eq!(call.request.method, Method::Get);
    assert_eq!(call.request.path, vec!["v1".to_string(), "items".to_string()]);
    assert_eq!(call.deadline_ms, 3000);
    let auth = call.request.auth.expect("the credential must be attached");
    assert_eq!(auth.as_bytes(), b"k1-secret-bytes");
    assert_eq!(
        oagw::routing::outbound_target(&call.request.base_addr, &call.request.path),
        "https://api.example.com/v1/items"
    );
    let resp = outcome.result.expect("the upstream response passes through");
    assert_eq!(resp.status, 200);
    assert_eq!(resp.body, b"[]".to_vec());
    assert!(outcome.constraints.is_empty());
}

#[test]
fn allow_constraints_pass_through_unmodified() {
    let cp = scenario_cp();
    let outcome = run_request(
        &cp,
        scenario_ctx(),
        Ok(EvaluationResponse {
            decision: true,
            constraints: vec!["mask-fields".to_string(), "row-filter".to_string()],
            deny_reason: None,
        }),
        Some(SecretValue::from_text("k1-secret-bytes")),
        upstream_ok(),
    );
    assert!(outcome.call.is_some());
    assert_eq!(
        outcome.constraints,
        vec!["mask-fields".to_string(), "row-filter".to_string()]
    );
}

#[test]
fn deny_never_dispatches() {
    let cp = scenario_cp();
    let outcome = run_request(
        &cp,
        scenario_ctx(),
        deny(),
        Some(SecretValue::from_text("k1-secret-bytes")),
        upstream_ok(),
    );
    assert!(outcome.call.is_none());
    assert!(outcome.constraints.is_empty());
    match outcome.result {
        Err(GatewayError::Forbidden(reason)) => {
            assert_eq!(reason, "access denied by policy");
        }
        _ => panic!("expected a policy denial"),
    }
}

#[test]
fn evaluator_error_acts_as_deny() {
    let cp = scenario_cp();
    let outcome = run_request(
        &cp,
        scenario_ctx(),
        Err(EvalError {
            message: "pdp exploded: stack trace".to_string(),
        }),
        Some(SecretValue::from_text("k1-secret-bytes")),
        upstream_ok(),
    );
    assert!(outcome.call.is_none());
    match outcome.result {
        Err(GatewayError::Forbidden(reason)) => {
            assert_eq!(reason, "access denied by policy");
            assert!(!reason.contains("stack trace"));
        }
        _ => panic!("expected a policy denial"),
    }
}

#[test]
fn missing_credential_is_dependency_unavailable() {
    let cp = scenario_cp();
    let outcome = run_request(&cp, scenario_ctx(), allow(), None, upstream_ok());
    assert!(outcome.call.is_none());
    assert!(matches!(
        outcome.result,
        Err(GatewayError::DependencyUnavailable)
    ));
}

#[test]
fn unmatched_route_is_not_found() {
    let cp = scenario_cp();
    let mut ctx = scenario_ctx();
    ctx.path = vec!["elsewhere".to_string()];
    let outcome = run_request(&cp, ctx, allow(), None, upstream_ok());
    assert!(outcome.call.is_none());
    assert!(matches!(outcome.result, Err(GatewayError::NotFound)));
}

#[test]
fn empty_path_segment_is_invalid_request() {
    let cp = scenario_cp();
    let mut ctx = scenario_ctx();
    ctx.path = vec!["proxy".to_string(), "".to_string()];
    let outcome = run_request(&cp, ctx, allow(), None, upstream_ok());
    assert!(outcome.call.is_none());
    assert!(matches!(outcome.result, Err(GatewayError::InvalidRequest)));
}

#[test]
fn deadline_composition_takes_the_minimum() {
    assert_eq!(effective_deadline(Some(2000), 5000), 2000);
    assert_eq!(effective_deadline(Some(7000), 5000), 5000);
    assert_eq!(effective_deadline(None, 5000), 5000);
}

#[test]
fn timeout_is_reported_as_timeout_not_unreachable() {
    let cp = scenario_cp();
    let mut ctx = scenario_ctx();
    ctx.caller_timeout_ms = Some(2000);
    let outcome = run_request(
        &cp,
        ctx,
        allow(),
        Some(SecretValue::from_text("k1-secret-bytes")),
        Err(DispatchError::Timeout),
    );
    let call = outcome.call.expect("the request must reach dispatch");
    assert_eq!(call.deadline_ms, 2000);
    assert!(matches!(outcome.result, Err(GatewayError::Timeout)));
    assert!(!matches!(
        run_request(
            &scenario_cp(),
            scenario_ctx(),
            allow(),
            Some(SecretValue::from_text("k1-secret-bytes")),
            Err(DispatchError::Timeout),
        )
        .result,
        Err(GatewayError::UpstreamUnreachable)
    ));
}

#[test]
fn unreachable_upstream_is_gateway_fault() {
    let cp = scenario_cp();
    let outcome = run_request(
        &cp,
        scenario_ctx(),
        allow(),
        Some(SecretValue::from_text("k1-secret-bytes")),
        Err(DispatchError::Unreachable),
    );
    assert!(matches!(
        outcome.result,
        Err(GatewayError::UpstreamUnreachable)
    ));
}

#[test]
fn upstream_error_status_passes_through() {
    let result = complete_dispatch(Ok(UpstreamResponse {
        status: 502,
        headers: Vec::new(),
        body: b"upstream says no".to_vec(),
    }));
    let resp = result.expect("error statuses are not reinterpreted");
    assert_eq!(resp.status, 502);
    assert_eq!(resp.body, b"upstream says no".to_vec());
}

#[test]
fn no_credential_required_attaches_nothing() {
    let mut cp = ControlPlane::new();
    cp.create_upstream(Upstream {
        id: UpstreamId(1),
        base_addr: "https://open.example.com".to_string(),
        timeout_ms: 1000,
        credential: None,
        owner_tenant: T1,
    })
    .unwrap();
    cp.create_route(Route {
        id: RouteId(1),
        tenant: T1,
        method: Method::Get,
        pattern: PathPattern {
            segments: vec!["proxy".to_string()],
            wildcard: true,
        },
        upstream_id: UpstreamId(1),
        rewrite: Vec::new(),
    })
    .unwrap();
    let outcome = run_request(
        &cp,
        scenario_ctx(),
        allow(),
        Some(SecretValue::from_text("should-not-be-used")),
        upstream_ok(),
    );
    let call = outcome.call.expect("the request must reach dispatch");
    assert!(call.request.auth.is_none());
    assert_eq!(call.request.path, vec!["items".to_string()]);
}

#[test]
fn credential_chain_resolves_from_ancestor() {
    let parent = TenantId(100);
    let child = TenantId(101);
    let key = SecretRef::new("K1").unwrap();
    let mut store = CredentialStore::new();
    store.put_secret(parent, key.duplicate(), b"parent-secret".to_vec());
    assert!(store.set_parent(child, parent));
    let resolved = store.resolve(child, &key).expect("inherited from the ancestor");
    assert_eq!(resolved.as_bytes(), b"parent-secret");
    assert!(store.resolve(TenantId(999), &key).is_none());
    let other = SecretRef::new("K2").unwrap();
    assert!(store.resolve(child, &other).is_none());
}

#[test]
fn credential_upsert_replaces_value() {
    let key = SecretRef::new("K1").unwrap();
    let mut store = CredentialStore::new();
    store.put_secret(T1, key.duplicate(), b"old".to_vec());
    store.put_secret(T1, key.duplicate(), b"new".to_vec());
    let resolved = store.resolve(T1, &key).unwrap();
    assert_eq!(resolved.as_bytes(), b"new");
}

#[test]
fn unresolved_credential_chain_yields_dependency_unavailable() {
    let (cp0, store) = TestCpBuilder::new()
        .with_credentials(vec![("OTHER".to_string(), "v".to_string())])
        .build_for_tenant(T1)
        .unwrap();
    drop(cp0);
    let cp = scenario_cp();
    let key = SecretRef::new("K1").unwrap();
    let resolved = store.resolve(T1, &key);
    assert!(resolved.is_none());
    let outcome = run_request(&cp, scenario_ctx(), allow(), resolved, upstream_ok());
    assert!(outcome.call.is_none());
    assert!(matches!(
        outcome.result,
        Err(GatewayError::DependencyUnavailable)
    ));
}

#[test]
fn test_cp_builder_rejects_invalid_keys() {
    let r = TestCpBuilder::new()
        .with_credentials(vec![("bad key".to_string(), "v".to_string())])
        .build_for_tenant(T1);
    assert!(r.is_err());
}

#[test]
fn status_codes_match_error_classes() {
    assert_eq!(GatewayError::InvalidRequest.status_code(), 400);
    assert_eq!(GatewayError::NotFound.status_code(), 404);
    assert_eq!(GatewayError::Forbidden("denied".to_string()).status_code(), 403);
    assert_eq!(GatewayError::DependencyUnavailable.status_code(), 503);
    assert_eq!(GatewayError::Timeout.status_code(), 504);
    assert_eq!(GatewayError::UpstreamUnreachable.status_code(), 502);
    assert_eq!(GatewayError::Internal.status_code(), 500);
}

#[test]
fn normalize_decision_is_fail_closed() {
    let denied = normalize_decision(Err(EvalError {
        message: "internal diagnostic".to_string(),
    }));
    assert!(!denied.allow);
    assert_eq!(denied.reason.as_deref(), Some("access denied by policy"));
    assert!(denied.constraints.is_empty());

    let explicit = normalize_decision(Ok(EvaluationResponse {
        decision: false,
        constraints: Vec::new(),
        deny_reason: Some("quota exceeded".to_string()),
    }));
    assert!(!explicit.allow);
    assert_eq!(explicit.reason.as_deref(), Some("quota exceeded"));

    let allowed = normalize_decision(Ok(EvaluationResponse {
        decision: true,
        constraints: vec!["mask-fields".to_string()],
        deny_reason: None,
    }));
    assert!(allowed.allow);
    assert_eq!(allowed.constraints, vec!["mask-fields".to_string()]);
    assert!(allowed.reason.is_none());
}

#[test]
fn capturing_client_records_requests() {
    let mut client = CapturingAuthZResolverClient::new();
    let request = build_evaluation_request(T1, S1, T1);
    assert_eq!(request.resource_type, "gts.x.core.oagw.proxy.v1~");
    assert_eq!(request.action, "invoke");
    let outcome = client.evaluate(request);
    assert!(outcome.unwrap().decision);
    assert_eq!(client.recorded().len(), 1);
    assert_eq!(client.recorded()[0].tenant, T1);

    let mut denying = CapturingAuthZResolverClient::denying();
    let outcome = denying.evaluate(build_evaluation_request(T1, S1, T1));
    assert!(!outcome.unwrap().decision);
}

#[test]
fn wildcard_matches_zero_tail_segments() {
    let cp = scenario_cp();
    let mut ctx = scenario_ctx();
    ctx.path = vec!["proxy".to_string()];
    let outcome = run_request(
        &cp,
        ctx,
        allow(),
        Some(SecretValue::from_text("k1-secret-bytes")),
        upstream_ok(),
    );
    let call = outcome.call.expect("a bare prefix matches the wildcard");
    assert_eq!(call.request.path, vec!["v1".to_string()]);
}

#[test]
fn exact_pattern_requires_exact_path() {
    let mut cp = ControlPlane::new();
    cp.create_upstream(Upstream {
        id: UpstreamId(1),
        base_addr: "https://api.example.com".to_string(),
        timeout_ms: 1000,
        credential: None,
        owner_tenant: T1,
    })
    .unwrap();
    cp.create_route(Route {
        id: RouteId(1),
        tenant: T1,
        method: Method::Get,
        pattern: PathPattern {
            segments: vec!["health".to_string()],
            wildcard: false,
        },
        upstream_id: UpstreamId(1),
        rewrite: vec!["status".to_string()],
    })
    .unwrap();
    let mut ctx = scenario_ctx();
    ctx.path = vec!["health".to_string(), "extra".to_string()];
    let outcome = run_request(&cp, ctx, allow(), None, upstream_ok());
    assert!(matches!(outcome.result, Err(GatewayError::NotFound)));

    let mut ctx = scenario_ctx();
    ctx.path = vec!["health".to_string()];
    let outcome = run_request(&cp, ctx, allow(), None, upstream_ok());
    let call = outcome.call.expect("the exact path matches");
    assert_eq!(call.request.path, vec!["status".to_string()]);
    assert_eq!(
        oagw::routing::outbound_target(&call.request.base_addr, &call.request.path),
        "https://api.example.com/status"
    );
}

#[test]
fn credential_chain_resolves_across_two_generations() {
    let grandparent = TenantId(100);
    let parent = TenantId(101);
    let child = TenantId(102);
    let key = SecretRef::new("K1").unwrap();
    let mut store = CredentialStore::new();
    store.put_secret(grandparent, key.duplicate(), b"root-secret".to_vec());
    assert!(store.set_parent(child, parent));
    assert!(store.set_parent(parent, grandparent));
    assert!(!store.set_parent(child, grandparent));
    let resolved = store.resolve(child, &key).expect("inherited two levels up");
    assert_eq!(resolved.as_bytes(), b"root-secret");
}

#[test]
fn closest_ancestor_secret_shadows_farther_ones() {
    let parent = TenantId(100);
    let child = TenantId(101);
    let key = SecretRef::new("K1").unwrap();
    let mut store = CredentialStore::new();
    store.put_secret(parent, key.duplicate(), b"parent-secret".to_vec());
    store.put_secret(child, key.duplicate(), b"child-secret".to_vec());
    assert!(store.set_parent(child, parent));
    let resolved = store.resolve(child, &key).unwrap();
    assert_eq!(resolved.as_bytes(), b"child-secret");
}

#[test]
fn put_secret_leaves_other_keys_untouched() {
    let k1 = SecretRef::new("K1").unwrap();
    let k2 = SecretRef::new("K2").unwrap();
    let mut store = CredentialStore::new();
    store.put_secret(T1, k1.duplicate(), b"one".to_vec());
    store.put_secret(T1, k2.duplicate(), b"two".to_vec());
    store.put_secret(T1, k1.duplicate(), b"one-replaced".to_vec());
    assert_eq!(store.resolve(T1, &k1).unwrap().as_bytes(), b"one-replaced");
    assert_eq!(store.resolve(T1, &k2).unwrap().as_bytes(), b"two");
}

#[test]
fn outbound_target_with_no_segments_is_the_base() {
    assert_eq!(
        oagw::routing::outbound_target("https://api.example.com", &Vec::new()),
        "https://api.example.com"
    );
}

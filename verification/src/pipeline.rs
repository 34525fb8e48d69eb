//! The data-plane request pipeline.
//!
//! Per request the stages run strictly in order: path validation, route
//! resolution, policy decision (fail-closed), credential attachment, outbound
//! construction with deadline composition, and completion. Each gate
//! short-circuits to a terminal error; the dispatcher is handed work only
//! after every gate has passed, so a denied or under-credentialed request
//! never produces an outbound call.
//!
//! The collaborator calls themselves (policy evaluation, credential lookup,
//! network dispatch) are made by the embedding program between stages; the
//! pipeline consumes their outcomes as values and is verified for every
//! possible outcome.

use vstd::prelude::*;

use crate::control_plane::{
    ControlPlane, spec_first_route_match, spec_some_route_matches, spec_upstream_by_id,
};
use crate::dispatch::{
    DispatchError, GatewayError, UpstreamResponse, complete_dispatch, effective_deadline,
    spec_complete_dispatch, spec_effective_deadline,
};
use crate::ids::{SubjectId, TenantId};
use crate::policy::{EvalError, EvaluationResponse, normalize_decision, spec_allow, spec_deny_reason};
use crate::routing::{Method, rewrite_path, spec_rewritten_path};
use crate::secret::SecretValue;

verus! {

/// One inbound request, as handed to the data plane after authentication and
/// context extraction.
pub struct RequestCtx {
    /// The caller's tenant.
    pub tenant: TenantId,
    /// The authenticated subject of the request.
    pub subject: SubjectId,
    /// The request method.
    pub method: Method,
    /// The request path, split into segments.
    pub path: Vec<String>,
    /// The request headers.
    pub headers: Vec<(String, String)>,
    /// The request body.
    pub body: Vec<u8>,
    /// A caller-supplied timeout, which can only tighten the upstream's.
    pub caller_timeout_ms: Option<u64>,
}

/// The fully-built outbound request handed to the dispatcher.
pub struct OutboundRequest {
    /// The upstream's base network address.
    pub base_addr: String,
    /// The caller's original method.
    pub method: Method,
    /// The rewritten path segments.
    pub path: Vec<String>,
    /// The caller's original headers.
    pub headers: Vec<(String, String)>,
    /// The injected credential, attached in memory for this call only.
    pub auth: Option<SecretValue>,
    /// The caller's original body.
    pub body: Vec<u8>,
}

/// One unit of dispatcher work: the outbound request and its deadline.
pub struct DispatchCall {
    /// The outbound request.
    pub request: OutboundRequest,
    /// The effective deadline in milliseconds.
    pub deadline_ms: u64,
}

/// The terminal outcome of one pipeline run: the caller-facing result, and
/// the dispatcher work that was handed out — `None` when no gate let the
/// request through, so nothing reached the network.
pub struct RequestOutcome {
    /// The caller-facing result.
    pub result: Result<UpstreamResponse, GatewayError>,
    /// The dispatch that was performed, if any.
    pub call: Option<DispatchCall>,
    /// Constraints returned alongside an allow decision, passed through
    /// unmodified for downstream enforcement; empty otherwise.
    pub constraints: Vec<String>,
}

/// A well-formed inbound path: every segment is non-empty.
pub open spec fn spec_valid_path(path: Seq<Seq<char>>) -> bool {
    forall|i: int| 0 <= i < path.len() ==> (#[trigger] path[i]).len() > 0
}

/// Decides [`spec_valid_path`].
pub fn valid_path(path: &Vec<String>) -> (r: bool)
    ensures
        r == spec_valid_path(path.deep_view()),
{
    let n = path.len();
    let mut i: usize = 0;
    while i < n
        invariant
            i <= n,
            n == path@.len(),
            forall|j: int| 0 <= j < i ==> (#[trigger] path.deep_view()[j]).len() > 0,
        decreases n - i,
    {
        if path[i].as_str().is_empty() {
            proof {
                assert(path.deep_view()[i as int] == path@[i as int]@);
            }
            return false;
        }
        proof {
            assert(path.deep_view()[i as int] == path@[i as int]@);
        }
        i = i + 1;
    }
    true
}

/// Credential-attachment gate: when the matched upstream requires auth, a
/// resolved secret must be present; its absence is a terminal dependency
/// failure, never a silent pass-through without auth. When no auth is
/// required, nothing is attached even if a secret was offered.
pub fn attach_credential(required: bool, resolved: Option<SecretValue>) -> (r: Result<
    Option<SecretValue>,
    GatewayError,
>)
    ensures
        !required ==> (r matches Ok(a) && a is None),
        required && resolved is Some ==> (r matches Ok(a) && a == resolved),
        required && resolved is None ==> (r matches Err(e) && e matches
            GatewayError::DependencyUnavailable),
{
    if !required {
        Ok(None)
    } else {
        match resolved {
            Some(v) => Ok(Some(v)),
            None => Err(GatewayError::DependencyUnavailable),
        }
    }
}

/// Two first-matching routes are the same route.
proof fn lemma_first_match_unique(
    rs: Seq<crate::config::Route>,
    tenant: TenantId,
    method: Method,
    path: Seq<Seq<char>>,
    i: int,
    j: int,
)
    requires
        spec_first_route_match(rs, tenant, method, path, i),
        spec_first_route_match(rs, tenant, method, path, j),
    ensures
        i == j,
{
}

/// Runs the whole pipeline on one request, given the collaborator outcomes:
/// the policy evaluator's answer, the credential resolver's answer, and the
/// dispatcher's outcome (consulted only when the request reaches dispatch).
///
/// The contract covers every stage: an invalid path or unmatched route ends
/// the run with the corresponding error and no outbound call; any non-allow
/// policy outcome — explicit deny or evaluator failure alike — ends it as
/// `Forbidden` with the normalized reason and no outbound call; a required
/// but unresolved credential ends it as `DependencyUnavailable` with no
/// outbound call; otherwise exactly one dispatch is handed out, carrying the
/// caller's method, headers and body, the rewritten path, the upstream's
/// address, the credential exactly when the upstream requires one, and the
/// composed deadline, and the dispatcher's outcome is mapped to the
/// caller-facing result unmodified.
pub fn run_request(
    cp: &ControlPlane,
    ctx: RequestCtx,
    eval_outcome: Result<EvaluationResponse, EvalError>,
    cred_outcome: Option<SecretValue>,
    dispatch_outcome: Result<UpstreamResponse, DispatchError>,
) -> (r: RequestOutcome)
    requires
        cp.wf(),
    ensures
        !spec_allow(eval_outcome) ==> r.call is None,
        (r.result is Ok) ==> r.call is Some,
        r.call is None ==> r.constraints@.len() == 0,
        r.call is Some ==> (eval_outcome matches Ok(er) && r.constraints == er.constraints),
        !spec_valid_path(ctx.path.deep_view()) ==> (r.result matches Err(e) && e matches
            GatewayError::InvalidRequest) && r.call is None,
        spec_valid_path(ctx.path.deep_view()) && !spec_some_route_matches(
            cp.spec_routes(),
            ctx.tenant,
            ctx.method,
            ctx.path.deep_view(),
        ) ==> (r.result matches Err(e) && e matches GatewayError::NotFound) && r.call is None,
        forall|i: int|
            spec_valid_path(ctx.path.deep_view()) && #[trigger] spec_first_route_match(
                cp.spec_routes(),
                ctx.tenant,
                ctx.method,
                ctx.path.deep_view(),
                i,
            ) ==> {
                let route = cp.spec_routes()[i];
                let upstream = spec_upstream_by_id(cp.spec_upstreams(), route.upstream_id);
                &&& (!spec_allow(eval_outcome) ==> (r.result matches Err(e) && e matches
                    GatewayError::Forbidden(m) && m@ == spec_deny_reason(eval_outcome)))
                &&& (spec_allow(eval_outcome) && upstream.credential is Some && cred_outcome
                    is None ==> (r.result matches Err(e) && e matches
                    GatewayError::DependencyUnavailable) && r.call is None)
                &&& (spec_allow(eval_outcome) && (upstream.credential is None || cred_outcome
                    is Some) ==> (r.call matches Some(call) && {
                    &&& call.request.base_addr == upstream.base_addr
                    &&& call.request.method == ctx.method
                    &&& call.request.path.deep_view() == spec_rewritten_path(
                        route.rewrite.deep_view(),
                        route.pattern.segments@.len() as int,
                        route.pattern.wildcard,
                        ctx.path.deep_view(),
                    )
                    &&& call.request.headers == ctx.headers
                    &&& call.request.body == ctx.body
                    &&& (upstream.credential is Some ==> call.request.auth == cred_outcome)
                    &&& (upstream.credential is None ==> call.request.auth is None)
                    &&& call.deadline_ms == spec_effective_deadline(
                        ctx.caller_timeout_ms,
                        upstream.timeout_ms,
                    )
                    &&& r.result == spec_complete_dispatch(dispatch_outcome)
                    &&& (eval_outcome matches Ok(er) ==> r.constraints == er.constraints)
                }))
            },
{
    if !valid_path(&ctx.path) {
        return RequestOutcome {
            result: Err(GatewayError::InvalidRequest),
            call: None,
            constraints: Vec::new(),
        };
    }
    let resolved = cp.resolve(ctx.tenant, ctx.method, &ctx.path);
    match resolved {
        None => RequestOutcome {
            result: Err(GatewayError::NotFound),
            call: None,
            constraints: Vec::new(),
        },
        Some((route, upstream)) => {
            let ghost w = choose|w: int|
                spec_first_route_match(
                    cp.spec_routes(),
                    ctx.tenant,
                    ctx.method,
                    ctx.path.deep_view(),
                    w,
                ) && *route == cp.spec_routes()[w] && upstream.id == route.upstream_id && cp
                    .spec_upstreams().contains(*upstream) && *upstream == spec_upstream_by_id(
                    cp.spec_upstreams(),
                    route.upstream_id,
                );
            proof {
                assert forall|i: int|
                    spec_first_route_match(
                        cp.spec_routes(),
                        ctx.tenant,
                        ctx.method,
                        ctx.path.deep_view(),
                        i,
                    ) implies i == w by {
                    lemma_first_match_unique(
                        cp.spec_routes(),
                        ctx.tenant,
                        ctx.method,
                        ctx.path.deep_view(),
                        i,
                        w,
                    );
                }
            }
            let decision = normalize_decision(eval_outcome);
            if !decision.allow {
                let reason = match decision.reason {
                    Some(m) => m,
                    None => {
                        // A denial always carries a reason, by the
                        // normalization contract.
                        proof {
                            assert(false);
                        }
                        String::new()
                    },
                };
                return RequestOutcome {
                    result: Err(GatewayError::Forbidden(reason)),
                    call: None,
                    constraints: Vec::new(),
                };
            }
            let required = match &upstream.credential {
                Some(_) => true,
                None => false,
            };
            let auth = match attach_credential(required, cred_outcome) {
                Ok(a) => a,
                Err(e) => {
                    return RequestOutcome { result: Err(e), call: None, constraints: Vec::new() };
                },
            };
            let outbound_path = rewrite_path(&route.rewrite, &route.pattern, &ctx.path);
            let deadline_ms = effective_deadline(ctx.caller_timeout_ms, upstream.timeout_ms);
            let request = OutboundRequest {
                base_addr: upstream.base_addr.clone(),
                method: ctx.method,
                path: outbound_path,
                headers: ctx.headers,
                auth,
                body: ctx.body,
            };
            let call = DispatchCall { request, deadline_ms };
            let result = complete_dispatch(dispatch_outcome);
            RequestOutcome { result, call: Some(call), constraints: decision.constraints }
        },
    }
}

} // verus!

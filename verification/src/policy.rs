//! Policy enforcement point: builds evaluation requests for the external
//! policy decision point and normalizes its answers.
//!
//! The gateway is fail-closed: absence of an explicit allow — including any
//! error from the evaluator itself — is treated as deny, and the caller-facing
//! reason for such a failure is a fixed generic message, never the evaluator's
//! internal diagnostic text.

use vstd::prelude::*;

use crate::ids::{SubjectId, TenantId};

verus! {

/// The resource type name under which proxied upstream targets are evaluated.
pub open spec fn proxy_resource_type() -> Seq<char> {
    "gts.x.core.oagw.proxy.v1~"@
}

/// The action name for invoking (proxying a request to) an upstream.
pub open spec fn invoke_action() -> Seq<char> {
    "invoke"@
}

/// The generic caller-facing denial message used whenever the evaluator
/// itself failed or gave no reason.
pub open spec fn generic_denial() -> Seq<char> {
    "access denied by policy"@
}

/// What the gateway asks the policy decision point.
pub struct EvaluationRequest {
    /// The caller's tenant.
    pub tenant: TenantId,
    /// The authenticated subject of the request.
    pub subject: SubjectId,
    /// Resource type name of the evaluation target.
    pub resource_type: String,
    /// Resource property: the tenant owning the proxy target.
    pub resource_owner_tenant: TenantId,
    /// The action being authorized.
    pub action: String,
}

/// What the policy decision point answers.
pub struct EvaluationResponse {
    /// True exactly when access is explicitly allowed.
    pub decision: bool,
    /// Opaque constraints passed through for downstream enforcement.
    pub constraints: Vec<String>,
    /// Optional human-readable deny reason; never contains secret material.
    pub deny_reason: Option<String>,
}

/// A failure of the evaluator call itself. The message is server-side
/// diagnostic text and must never reach the caller.
#[derive(Debug)]
pub struct EvalError {
    /// The evaluator's internal diagnostic.
    pub message: String,
}

/// The normalized outcome the gateway enforces.
pub struct Decision {
    /// True exactly when the evaluator explicitly allowed the request.
    pub allow: bool,
    /// Constraints passed through unmodified alongside an allow decision.
    pub constraints: Vec<String>,
    /// Caller-facing denial reason; present exactly when denied.
    pub reason: Option<String>,
}

/// True exactly when the evaluator outcome is an explicit allow.
pub open spec fn spec_allow(outcome: Result<EvaluationResponse, EvalError>) -> bool {
    outcome matches Ok(r) && r.decision
}

/// The caller-facing denial reason for a non-allowed outcome: the decision
/// point's own reason when it gave one, the generic message otherwise — in
/// particular for every evaluator failure.
pub open spec fn spec_deny_reason(outcome: Result<EvaluationResponse, EvalError>) -> Seq<char> {
    match outcome {
        Ok(r) => match r.deny_reason {
            Some(m) => m@,
            None => generic_denial(),
        },
        Err(_) => generic_denial(),
    }
}

/// Builds the evaluation request for proxying to an upstream owned by
/// `resource_owner_tenant`, on behalf of `subject` in `tenant`.
pub fn build_evaluation_request(
    tenant: TenantId,
    subject: SubjectId,
    resource_owner_tenant: TenantId,
) -> (r: EvaluationRequest)
    ensures
        r.tenant == tenant,
        r.subject == subject,
        r.resource_owner_tenant == resource_owner_tenant,
        r.resource_type@ == proxy_resource_type(),
        r.action@ == invoke_action(),
{
    EvaluationRequest {
        tenant,
        subject,
        resource_type: "gts.x.core.oagw.proxy.v1~".to_owned(),
        resource_owner_tenant,
        action: "invoke".to_owned(),
    }
}

/// Normalizes an evaluator outcome, fail-closed.
///
/// An explicit allow passes the constraints through unmodified and carries no
/// reason. Anything else — an explicit deny or an evaluator failure — is a
/// denial with no constraints and a caller-facing reason that is never the
/// evaluator's internal error text.
pub fn normalize_decision(outcome: Result<EvaluationResponse, EvalError>) -> (d: Decision)
    ensures
        d.allow == spec_allow(outcome),
        d.allow ==> (outcome matches Ok(r) && d.constraints == r.constraints && d.reason
            is None),
        !d.allow ==> d.constraints@.len() == 0 && (d.reason matches Some(m) && m@
            == spec_deny_reason(outcome)),
{
    match outcome {
        Ok(r) => {
            if r.decision {
                Decision { allow: true, constraints: r.constraints, reason: None }
            } else {
                let reason = match r.deny_reason {
                    Some(m) => m,
                    None => "access denied by policy".to_owned(),
                };
                Decision { allow: false, constraints: Vec::new(), reason: Some(reason) }
            }
        },
        Err(_) => {
            Decision {
                allow: false,
                constraints: Vec::new(),
                reason: Some("access denied by policy".to_owned()),
            }
        },
    }
}

/// Fail-closed law: an evaluator failure has the same normalized effect as an
/// explicit deny that carries no constraints and no reason.
pub proof fn lemma_evaluator_error_is_deny(e: EvalError, r: EvaluationResponse)
    requires
        !r.decision,
        r.deny_reason is None,
    ensures
        spec_allow(Err(e)) == spec_allow(Ok(r)),
        spec_deny_reason(Err(e)) == spec_deny_reason(Ok(r)),
{
}

/// A policy client that always allows; useful where authorization is not under
/// test.
pub struct AllowingAuthZResolverClient;

impl AllowingAuthZResolverClient {
    /// Answers every evaluation with an explicit allow.
    pub fn evaluate(&self, request: EvaluationRequest) -> (r: Result<
        EvaluationResponse,
        EvalError,
    >)
        ensures
            spec_allow(r),
            r matches Ok(resp) && resp.constraints@.len() == 0 && resp.deny_reason is None,
    {
        let _ = request;
        Ok(EvaluationResponse { decision: true, constraints: Vec::new(), deny_reason: None })
    }
}

/// A policy client that always denies.
pub struct DenyingAuthZResolverClient;

impl DenyingAuthZResolverClient {
    /// Answers every evaluation with an explicit deny.
    pub fn evaluate(&self, request: EvaluationRequest) -> (r: Result<
        EvaluationResponse,
        EvalError,
    >)
        ensures
            !spec_allow(r),
            r matches Ok(resp) && !resp.decision && resp.constraints@.len() == 0
                && resp.deny_reason is None,
    {
        let _ = request;
        Ok(EvaluationResponse { decision: false, constraints: Vec::new(), deny_reason: None })
    }
}

/// A policy client that records every evaluation request and answers with a
/// configured decision.
pub struct CapturingAuthZResolverClient {
    requests: Vec<EvaluationRequest>,
    decision: bool,
}

impl Default for CapturingAuthZResolverClient {
    /// The default recording client allows every request.
    fn default() -> (r: CapturingAuthZResolverClient)
        ensures
            r.spec_requests().len() == 0,
            r.spec_decision(),
    {
        CapturingAuthZResolverClient::new()
    }
}

impl CapturingAuthZResolverClient {
    /// A recording client that allows every request.
    pub fn new() -> (r: CapturingAuthZResolverClient)
        ensures
            r.spec_requests().len() == 0,
            r.spec_decision(),
    {
        CapturingAuthZResolverClient { requests: Vec::new(), decision: true }
    }

    /// A recording client that denies every request.
    pub fn denying() -> (r: CapturingAuthZResolverClient)
        ensures
            r.spec_requests().len() == 0,
            !r.spec_decision(),
    {
        CapturingAuthZResolverClient { requests: Vec::new(), decision: false }
    }

    /// The decision this client answers with.
    pub closed spec fn spec_decision(&self) -> bool {
        self.decision
    }

    /// The evaluation requests recorded so far, oldest first.
    pub closed spec fn spec_requests(&self) -> Seq<EvaluationRequest> {
        self.requests@
    }

    /// The evaluation requests recorded so far.
    pub fn recorded(&self) -> (r: &Vec<EvaluationRequest>)
        ensures
            r@ == self.spec_requests(),
    {
        &self.requests
    }

    /// Records the request and answers with the configured decision.
    pub fn evaluate(&mut self, request: EvaluationRequest) -> (r: Result<
        EvaluationResponse,
        EvalError,
    >)
        ensures
            final(self).spec_requests() == old(self).spec_requests().push(request),
            final(self).spec_decision() == old(self).spec_decision(),
            spec_allow(r) == old(self).spec_decision(),
            r matches Ok(resp) && resp.decision == old(self).spec_decision()
                && resp.constraints@.len() == 0 && resp.deny_reason is None,
    {
        let decision = self.decision;
        self.requests.push(request);
        Ok(EvaluationResponse { decision, constraints: Vec::new(), deny_reason: None })
    }
}

} // verus!

//! Upstream dispatch outcomes, the caller-facing error taxonomy, and
//! deadline composition.
//!
//! The dispatcher itself is an external collaborator: it performs a single
//! outbound call under a strict deadline. This module fixes what the gateway
//! promises about its outcome: the deadline handed over is the minimum of the
//! caller's and the upstream's timeouts, a deadline overrun surfaces as
//! `Timeout`, a transport failure as `UpstreamUnreachable`, and an upstream
//! response — error status or not — is passed through unmodified.

use vstd::prelude::*;

verus! {

/// A transport-level failure of the outbound call.
#[derive(Clone, Copy, Debug, PartialEq, Eq, Structural)]
pub enum DispatchError {
    /// The call exceeded its deadline and was aborted.
    Timeout,
    /// The upstream could not be reached (connection, name resolution or
    /// transport-security failure).
    Unreachable,
}

/// A response returned by an upstream, passed through unmodified — the
/// gateway does not reinterpret upstream semantics, error statuses included.
pub struct UpstreamResponse {
    /// The upstream's status code.
    pub status: u16,
    /// The upstream's response headers.
    pub headers: Vec<(String, String)>,
    /// The upstream's response body.
    pub body: Vec<u8>,
}

/// The caller-facing gateway error taxonomy.
#[derive(Debug)]
pub enum GatewayError {
    /// Malformed inbound request.
    InvalidRequest,
    /// No matching route; the message never enumerates valid routes.
    NotFound,
    /// Policy denial, carrying only the normalized reason.
    Forbidden(String),
    /// A required credential is missing or a collaborator is unreachable.
    DependencyUnavailable,
    /// The outbound call exceeded its deadline.
    Timeout,
    /// The upstream could not be reached.
    UpstreamUnreachable,
    /// An unexpected invariant violation; details never reach the caller.
    Internal,
}

impl GatewayError {
    /// The status-code class of each error kind.
    pub fn status_code(&self) -> (r: u16)
        ensures
            r == self.spec_status_code(),
    {
        match self {
            GatewayError::InvalidRequest => 400,
            GatewayError::NotFound => 404,
            GatewayError::Forbidden(_) => 403,
            GatewayError::DependencyUnavailable => 503,
            GatewayError::Timeout => 504,
            GatewayError::UpstreamUnreachable => 502,
            GatewayError::Internal => 500,
        }
    }

    /// The status-code class of each error kind.
    pub open spec fn spec_status_code(&self) -> u16 {
        match self {
            GatewayError::InvalidRequest => 400,
            GatewayError::NotFound => 404,
            GatewayError::Forbidden(_) => 403,
            GatewayError::DependencyUnavailable => 503,
            GatewayError::Timeout => 504,
            GatewayError::UpstreamUnreachable => 502,
            GatewayError::Internal => 500,
        }
    }
}

/// The effective outbound deadline: the upstream's configured timeout,
/// tightened to the caller's when the caller asked for less. The gateway
/// never extends a caller's requested deadline.
pub open spec fn spec_effective_deadline(caller_ms: Option<u64>, upstream_ms: u64) -> u64 {
    match caller_ms {
        Some(c) => if c < upstream_ms {
            c
        } else {
            upstream_ms
        },
        None => upstream_ms,
    }
}

/// Computes the effective outbound deadline, the minimum of the caller's
/// and the upstream's timeouts.
pub fn effective_deadline(caller_ms: Option<u64>, upstream_ms: u64) -> (r: u64)
    ensures
        r == spec_effective_deadline(caller_ms, upstream_ms),
        r <= upstream_ms,
        caller_ms matches Some(c) ==> r <= c,
{
    match caller_ms {
        Some(c) => if c < upstream_ms {
            c
        } else {
            upstream_ms
        },
        None => upstream_ms,
    }
}

/// The caller-facing result of a dispatch outcome: responses pass through
/// unmodified, a deadline overrun is `Timeout`, a transport failure is
/// `UpstreamUnreachable`.
pub open spec fn spec_complete_dispatch(outcome: Result<UpstreamResponse, DispatchError>) -> Result<
    UpstreamResponse,
    GatewayError,
> {
    match outcome {
        Ok(resp) => Ok(resp),
        Err(DispatchError::Timeout) => Err(GatewayError::Timeout),
        Err(DispatchError::Unreachable) => Err(GatewayError::UpstreamUnreachable),
    }
}

/// Maps a dispatch outcome to the caller-facing result.
pub fn complete_dispatch(outcome: Result<UpstreamResponse, DispatchError>) -> (r: Result<
    UpstreamResponse,
    GatewayError,
>)
    ensures
        r == spec_complete_dispatch(outcome),
{
    match outcome {
        Ok(resp) => Ok(resp),
        Err(DispatchError::Timeout) => Err(GatewayError::Timeout),
        Err(DispatchError::Unreachable) => Err(GatewayError::UpstreamUnreachable),
    }
}

} // verus!

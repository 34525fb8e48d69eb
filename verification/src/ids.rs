//! Opaque identifiers for tenants, subjects, upstreams and routes.
//!
//! Identity is carried as a plain 128-bit value; the gateway never inspects
//! its structure, only compares for equality.

use vstd::prelude::*;

verus! {

/// Identifies a tenant.
#[derive(Clone, Copy, Debug, PartialEq, Eq, Structural)]
pub struct TenantId(pub u128);

/// Identifies the authenticated subject (caller) of a request.
#[derive(Clone, Copy, Debug, PartialEq, Eq, Structural)]
pub struct SubjectId(pub u128);

/// Identifies an upstream backend definition.
#[derive(Clone, Copy, Debug, PartialEq, Eq, Structural)]
pub struct UpstreamId(pub u128);

/// Identifies a route definition.
#[derive(Clone, Copy, Debug, PartialEq, Eq, Structural)]
pub struct RouteId(pub u128);

} // verus!

//! Multi-tenant service gateway engine.
//!
//! The control plane manages the durable configuration (upstream backends and
//! routes); the data plane executes the request-time pipeline: route
//! resolution, policy decision, credential resolution and injection, and
//! upstream dispatch under a composed deadline. External collaborators (the
//! policy decision point, the credential store backend, the network
//! dispatcher) are consumed through explicit value-level interfaces, so the
//! whole decision pipeline is verified here.

pub mod config;
pub mod control_plane;
pub mod credential;
pub mod dispatch;
pub mod dto;
pub mod ids;
pub mod pipeline;
pub mod policy;
pub mod routing;
pub mod secret;
pub mod testing;

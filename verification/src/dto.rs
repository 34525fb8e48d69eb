//! Wire-facing data-transfer types for the secret management interface.
//!
//! These mirror the domain model one-to-one so that the transport layer can
//! carry its own serialization derives on copies of them.

use vstd::prelude::*;
use vstd::utf8::{decode_utf8, valid_utf8};

use crate::ids::TenantId;
use crate::secret::{GetSecretResponse, SharingMode};

verus! {

/// Sharing mode as carried on the management interface.
#[derive(Clone, Copy, Debug, PartialEq, Eq, Structural)]
pub enum SharingModeDto {
    /// Only the owner can access the secret.
    Private,
    /// All users within the owner's tenant can access the secret.
    Tenant,
    /// The secret is accessible across tenant boundaries.
    Shared,
}

impl Default for SharingModeDto {
    /// The default scope is tenant-wide visibility, matching the domain
    /// model's default.
    fn default() -> (r: SharingModeDto)
        ensures
            r == SharingModeDto::Tenant,
    {
        SharingModeDto::Tenant
    }
}

impl SharingModeDto {
    /// The domain sharing mode this wire value stands for.
    pub open spec fn spec_to_mode(self) -> SharingMode {
        match self {
            SharingModeDto::Private => SharingMode::Private,
            SharingModeDto::Tenant => SharingMode::Tenant,
            SharingModeDto::Shared => SharingMode::Shared,
        }
    }

    /// Converts to the domain sharing mode.
    pub fn into_mode(self) -> (r: SharingMode)
        ensures
            r == self.spec_to_mode(),
    {
        match self {
            SharingModeDto::Private => SharingMode::Private,
            SharingModeDto::Tenant => SharingMode::Tenant,
            SharingModeDto::Shared => SharingMode::Shared,
        }
    }

    /// The wire value for a domain sharing mode; inverse of
    /// [`SharingModeDto::into_mode`].
    pub fn from_mode(mode: SharingMode) -> (r: SharingModeDto)
        ensures
            r.spec_to_mode() == mode,
    {
        match mode {
            SharingMode::Private => SharingModeDto::Private,
            SharingMode::Tenant => SharingModeDto::Tenant,
            SharingMode::Shared => SharingModeDto::Shared,
        }
    }
}

/// Request body for storing a secret.
pub struct PutSecretRequest {
    /// Secret value as text.
    pub value: String,
    /// Requested sharing mode; defaults to tenant-wide when omitted.
    pub sharing: SharingModeDto,
}

/// A problem response on the management interface: a status class with a
/// short title and a caller-safe detail line.
pub struct Problem {
    /// The status-code class.
    pub status: u16,
    /// A short title for the problem class.
    pub title: String,
    /// Caller-safe detail; never internal diagnostic text.
    pub detail: String,
}

/// Errors of the credential-store domain service.
pub enum DomainError {
    /// No storage plugin is configured for the vendor.
    PluginNotFound {
        /// The configured vendor name.
        vendor: String,
    },
    /// The storage plugin is not yet available.
    PluginUnavailable {
        /// The plugin's schema identity.
        gts_id: String,
        /// Why the plugin is unavailable.
        reason: String,
    },
    /// The storage plugin instance is misconfigured.
    InvalidPluginInstance {
        /// The plugin's schema identity.
        gts_id: String,
        /// What is wrong with the instance.
        reason: String,
    },
    /// The schema registry cannot be reached.
    TypesRegistryUnavailable(String),
    /// Any other internal failure.
    Internal(String),
    /// No matching secret exists or it is inaccessible.
    NotFound,
}

/// Maps a domain error to its caller-facing problem: absence is a plain
/// not-found, every backend fault is a generic unavailability, and internal
/// failures never expose their diagnostic text.
pub fn domain_error_to_problem(e: &DomainError) -> (r: Problem)
    ensures
        e matches DomainError::NotFound ==> r.status == 404 && r.title@ == "Not Found"@
            && r.detail@ == "Secret not found or inaccessible"@,
        (e matches DomainError::PluginNotFound { .. } || e matches DomainError::PluginUnavailable {
            ..
        } || e matches DomainError::InvalidPluginInstance { .. } || e matches
            DomainError::TypesRegistryUnavailable(_)) ==> r.status == 503 && r.title@
            == "Service Unavailable"@ && r.detail@ == "Storage backend temporarily unavailable"@,
        e matches DomainError::Internal(_) ==> r.status == 500 && r.title@
            == "Internal Server Error"@ && r.detail@ == "An internal error occurred"@,
{
    match e {
        DomainError::NotFound => Problem {
            status: 404,
            title: "Not Found".to_owned(),
            detail: "Secret not found or inaccessible".to_owned(),
        },
        DomainError::PluginNotFound { .. } | DomainError::PluginUnavailable { .. }
            | DomainError::InvalidPluginInstance { .. } | DomainError::TypesRegistryUnavailable(
            _,
        ) => Problem {
            status: 503,
            title: "Service Unavailable".to_owned(),
            detail: "Storage backend temporarily unavailable".to_owned(),
        },
        DomainError::Internal(_) => Problem {
            status: 500,
            title: "Internal Server Error".to_owned(),
            detail: "An internal error occurred".to_owned(),
        },
    }
}

/// Relies on `String::from_utf8`: it succeeds exactly on valid UTF-8 input
/// and returns the decoded text of those bytes.
#[verifier::external_body]
fn decode_utf8_text(bytes: Vec<u8>) -> (r: Option<String>)
    ensures
        match r {
            Some(s) => valid_utf8(bytes@) && s@ == decode_utf8(bytes@),
            None => !valid_utf8(bytes@),
        },
{
    String::from_utf8(bytes).ok()
}

/// Response body for retrieving a secret.
pub struct GetSecretResponseDto {
    /// Secret value as text.
    pub value: String,
    /// Tenant that owns this secret; differs from the requesting tenant when
    /// the secret was inherited through hierarchical resolution.
    pub owner_tenant_id: TenantId,
    /// Sharing mode of the secret.
    pub sharing: SharingModeDto,
    /// True when the secret was resolved from an ancestor tenant.
    pub is_inherited: bool,
}

impl GetSecretResponseDto {
    /// Converts a retrieved secret to its wire form. Fails when the secret
    /// bytes are not valid UTF-8 and so cannot be returned as text.
    pub fn from_response(r: GetSecretResponse) -> (d: Result<GetSecretResponseDto, Problem>)
        ensures
            (d is Ok) <==> valid_utf8(r.value@),
            d matches Ok(dto) ==> dto.value@ == decode_utf8(r.value@) && dto.owner_tenant_id
                == r.owner_tenant_id && dto.sharing.spec_to_mode() == r.sharing
                && dto.is_inherited == r.is_inherited,
            d matches Err(p) ==> p.status == 500 && p.title@ == "Encoding Error"@,
    {
        let bytes = vstd::slice::slice_to_vec(r.value.as_bytes());
        match decode_utf8_text(bytes) {
            Some(value) => Ok(
                GetSecretResponseDto {
                    value,
                    owner_tenant_id: r.owner_tenant_id,
                    sharing: SharingModeDto::from_mode(r.sharing),
                    is_inherited: r.is_inherited,
                },
            ),
            None => Err(
                Problem {
                    status: 500,
                    title: "Encoding Error".to_owned(),
                    detail: "Secret value contains non-UTF-8 bytes and cannot be returned as a string".to_owned(),
                },
            ),
        }
    }
}

} // verus!

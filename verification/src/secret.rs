//! Secret references and secret values for credential handling.
//!
//! A [`SecretRef`] is a validated lookup key (`[a-zA-Z0-9_-]+`, at most 255
//! bytes; colons are prohibited to prevent external-id collisions in backend
//! storage). A [`SecretValue`] wraps opaque secret bytes and exposes no
//! human-readable formatting path: the only text it can produce is a fixed
//! redaction marker.

use vstd::prelude::*;
use vstd::string::StringSliceAdditionalSpecFns;
use vstd::string::StrSliceExecFns;

use crate::ids::{SubjectId, TenantId};

verus! {

/// Why a candidate secret reference was rejected.
#[derive(Clone, Copy, Debug, PartialEq, Eq, Structural)]
pub enum RefViolation {
    /// The candidate is empty.
    Empty,
    /// The candidate exceeds 255 bytes.
    TooLong,
    /// The candidate contains a character outside `[a-zA-Z0-9_-]`.
    InvalidChar,
}

/// Errors surfaced by credential-store value handling.
#[derive(Clone, Copy, Debug, PartialEq, Eq, Structural)]
pub enum CredStoreError {
    /// The secret reference failed validation.
    InvalidSecretRef(RefViolation),
    /// No matching secret exists.
    NotFound,
}

/// True for the characters a secret reference may contain.
pub open spec fn allowed_ref_char(c: char) -> bool {
    ||| 'a' <= c && c <= 'z'
    ||| 'A' <= c && c <= 'Z'
    ||| '0' <= c && c <= '9'
    ||| c == '_'
    ||| c == '-'
}

/// A character sequence that is acceptable as a secret reference:
/// non-empty, at most 255 characters, all from `[a-zA-Z0-9_-]`.
pub open spec fn valid_secret_ref(cs: Seq<char>) -> bool {
    &&& 0 < cs.len() <= 255
    &&& forall|i: int| 0 <= i < cs.len() ==> allowed_ref_char(#[trigger] cs[i])
}

/// True for the bytes a secret reference may contain; mirrors
/// [`allowed_ref_char`] on the ASCII range.
pub open spec fn allowed_ref_byte(b: u8) -> bool {
    ||| 97 <= b && b <= 122
    ||| 65 <= b && b <= 90
    ||| 48 <= b && b <= 57
    ||| b == 95
    ||| b == 45
}

/// Decides [`allowed_ref_byte`].
fn allowed_ref_byte_exec(b: u8) -> (r: bool)
    ensures
        r == allowed_ref_byte(b),
{
    (97 <= b && b <= 122) || (65 <= b && b <= 90) || (48 <= b && b <= 57) || b == 95 || b == 45
}

/// A validated secret reference key.
pub struct SecretRef {
    text: String,
}

impl SecretRef {
    /// Every reference key in existence passed validation.
    #[verifier::type_invariant]
    spec fn type_inv(self) -> bool {
        valid_secret_ref(self.text@)
    }
}

impl View for SecretRef {
    type V = Seq<char>;

    closed spec fn view(&self) -> Seq<char> {
        self.text@
    }
}

impl SecretRef {
    /// Validates `value` and wraps it as a reference key.
    ///
    /// Returns `Ok` exactly when the value is non-empty, at most 255 bytes,
    /// and made of `[a-zA-Z0-9_-]` only; the error names the first violated
    /// rule, checked in that order.
    pub fn new(value: &str) -> (r: Result<SecretRef, CredStoreError>)
        ensures
            r matches Ok(v) ==> v@ == value@,
            (r is Ok) <==> valid_secret_ref(value@),
            r matches Err(e) ==> e matches CredStoreError::InvalidSecretRef(_),
            (r == Err::<SecretRef, CredStoreError>(CredStoreError::InvalidSecretRef(
                RefViolation::Empty,
            ))) <==> value@.len() == 0,
            (r == Err::<SecretRef, CredStoreError>(CredStoreError::InvalidSecretRef(
                RefViolation::TooLong,
            ))) <==> (value@.len() > 0 && value.spec_bytes().len() > 255),
    {
        broadcast use vstd::string::is_ascii_spec_bytes;
        broadcast use vstd::utf8::is_ascii_chars_encode_utf8;
        broadcast use vstd::slice::group_slice_axioms;

        if value.is_empty() {
            return Err(CredStoreError::InvalidSecretRef(RefViolation::Empty));
        }
        let raw: &[u8] = value.as_bytes();
        if raw.len() > 255 {
            proof {
                if valid_secret_ref(value@) {
                    assert(vstd::utf8::is_ascii_chars(value@)) by {
                        assert forall|i: int| 0 <= i < value@.len() implies '\0' <= #[trigger] value@[i]
                            <= '\u{7f}' by {
                            assert(allowed_ref_char(value@[i]));
                        }
                    }
                    assert(value@.len() == vstd::utf8::encode_utf8(value@).len());
                }
            }
            return Err(CredStoreError::InvalidSecretRef(RefViolation::TooLong));
        }
        if !value.is_ascii() {
            proof {
                let cs = value@;
                assert(!vstd::utf8::is_ascii_chars(cs));
                let j = choose|j: int| 0 <= j < cs.len() && !('\0' <= #[trigger] cs[j] <= '\u{7f}');
                assert(!allowed_ref_char(cs[j]));
            }
            return Err(CredStoreError::InvalidSecretRef(RefViolation::InvalidChar));
        }
        let n: usize = raw.len();
        proof {
            assert(value.spec_bytes() =~= Seq::new(value@.len(), |i: int| value@.index(i) as u8));
        }
        let mut i: usize = 0;
        while i < n
            invariant
                n == value@.len(),
                n <= 255,
                value.spec_bytes().len() == value@.len(),
                value.is_ascii(),
                i <= n,
                forall|j: int| 0 <= j < i ==> allowed_ref_char(#[trigger] value@[j]),
            decreases n - i,
        {
            let b: u8 = value.get_ascii(i);
            if !allowed_ref_byte_exec(b) {
                proof {
                    let c = value@[i as int];
                    assert('\0' <= c <= '\u{7f}');
                    assert(c as u8 == b);
                    assert(!allowed_ref_char(c));
                }
                return Err(CredStoreError::InvalidSecretRef(RefViolation::InvalidChar));
            }
            proof {
                let c = value@[i as int];
                assert('\0' <= c <= '\u{7f}');
                assert(c as u8 == b);
                assert(allowed_ref_char(c));
            }
            i = i + 1;
        }
        Ok(SecretRef { text: value.to_owned() })
    }

    /// The reference key as text. Every reference in existence passed
    /// validation, so the text is always an acceptable key.
    pub fn as_str(&self) -> (r: &str)
        ensures
            r@ == self@,
            valid_secret_ref(self@),
    {
        proof {
            use_type_invariant(self);
        }
        self.text.as_str()
    }

    /// A copy of this reference key.
    pub fn duplicate(&self) -> (r: SecretRef)
        ensures
            r@ == self@,
    {
        proof {
            use_type_invariant(self);
        }
        SecretRef { text: self.text.clone() }
    }

    /// Equality of two reference keys.
    pub fn matches(&self, other: &SecretRef) -> (r: bool)
        ensures
            r == (self@ == other@),
    {
        self.text == other.text
    }
}

/// A secret value with no human-readable formatting path.
///
/// Wraps opaque bytes; the content can be read back only through
/// [`SecretValue::as_bytes`], and the only text derivable from the value is
/// the fixed marker returned by [`SecretValue::redacted`].
pub struct SecretValue {
    bytes: Vec<u8>,
}

impl View for SecretValue {
    type V = Seq<u8>;

    closed spec fn view(&self) -> Seq<u8> {
        self.bytes@
    }
}

impl SecretValue {
    /// Wraps raw bytes as a secret value.
    pub fn new(value: Vec<u8>) -> (r: SecretValue)
        ensures
            r@ == value@,
    {
        SecretValue { bytes: value }
    }

    /// Wraps the bytes of a text as a secret value.
    pub fn from_text(value: &str) -> (r: SecretValue)
        ensures
            r@ == value.spec_bytes(),
    {
        SecretValue { bytes: value.as_bytes_vec() }
    }

    /// The raw secret bytes.
    pub fn as_bytes(&self) -> (r: &[u8])
        ensures
            r@ == self@,
    {
        self.bytes.as_slice()
    }

    /// A copy of this value, for attaching to a single outbound request.
    pub fn duplicate(&self) -> (r: SecretValue)
        ensures
            r@ == self@,
    {
        SecretValue { bytes: vstd::slice::slice_to_vec(self.bytes.as_slice()) }
    }

    /// The only printable rendering of a secret value: a fixed marker.
    /// Stands in for any display or debug formatting of the value.
    pub fn redacted(&self) -> (r: String)
        ensures
            r@ == "[REDACTED]"@,
    {
        "[REDACTED]".to_owned()
    }
}

/// Controls the visibility scope of a stored secret.
#[derive(Clone, Copy, Debug, PartialEq, Eq, Structural)]
pub enum SharingMode {
    /// Only the owner can access the secret.
    Private,
    /// All users within the owner's tenant can access the secret.
    Tenant,
    /// The secret is accessible across tenant boundaries.
    Shared,
}

impl Default for SharingMode {
    /// The default scope is tenant-wide visibility.
    fn default() -> (r: SharingMode)
        ensures
            r == SharingMode::Tenant,
    {
        SharingMode::Tenant
    }
}

impl SharingMode {
    /// The wire name of each sharing mode.
    pub open spec fn spec_label(&self) -> Seq<char> {
        match self {
            SharingMode::Private => "private"@,
            SharingMode::Tenant => "tenant"@,
            SharingMode::Shared => "shared"@,
        }
    }

    /// The wire name of this sharing mode.
    pub fn label(&self) -> (r: String)
        ensures
            r@ == self.spec_label(),
    {
        match self {
            SharingMode::Private => "private".to_owned(),
            SharingMode::Tenant => "tenant".to_owned(),
            SharingMode::Shared => "shared".to_owned(),
        }
    }
}

/// A retrieved secret with its access metadata.
pub struct GetSecretResponse {
    /// The decrypted secret value.
    pub value: SecretValue,
    /// The tenant that owns the secret; differs from the requesting tenant
    /// when the secret was inherited through hierarchical resolution.
    pub owner_tenant_id: TenantId,
    /// The sharing mode of the secret.
    pub sharing: SharingMode,
    /// True when the secret came from an ancestor tenant.
    pub is_inherited: bool,
}

/// The printable form of a retrieved secret: the value is always the fixed
/// redaction marker, never the secret bytes.
pub open spec fn spec_describe_response(sharing: SharingMode, is_inherited: bool) -> Seq<char> {
    "GetSecretResponse { value: [REDACTED], sharing: "@ + sharing.spec_label()
        + ", is_inherited: "@ + (if is_inherited {
        "true"@
    } else {
        "false"@
    }) + " }"@
}

impl GetSecretResponse {
    /// The only printable rendering of a retrieved secret; stands in for any
    /// display or debug formatting and always redacts the value.
    pub fn describe(&self) -> (r: String)
        ensures
            r@ == spec_describe_response(self.sharing, self.is_inherited),
    {
        let mut out = "GetSecretResponse { value: [REDACTED], sharing: ".to_owned();
        out.append(self.sharing.label().as_str());
        out.append(", is_inherited: ");
        if self.is_inherited {
            out.append("true");
        } else {
            out.append("false");
        }
        out.append(" }");
        out
    }
}

/// Metadata returned by storage backends alongside the secret value.
pub struct SecretMetadata {
    /// The decrypted secret value.
    pub value: SecretValue,
    /// The owner (subject) the secret belongs to.
    pub owner_id: SubjectId,
    /// The sharing mode of the secret.
    pub sharing: SharingMode,
    /// The tenant that owns the secret.
    pub owner_tenant_id: TenantId,
}

/// The printable form of secret metadata: the value is always the fixed
/// redaction marker, never the secret bytes.
pub open spec fn spec_describe_metadata(sharing: SharingMode) -> Seq<char> {
    "SecretMetadata { value: [REDACTED], sharing: "@ + sharing.spec_label() + " }"@
}

impl SecretMetadata {
    /// The only printable rendering of secret metadata; stands in for any
    /// display or debug formatting and always redacts the value.
    pub fn describe(&self) -> (r: String)
        ensures
            r@ == spec_describe_metadata(self.sharing),
    {
        let mut out = "SecretMetadata { value: [REDACTED], sharing: ".to_owned();
        out.append(self.sharing.label().as_str());
        out.append(" }");
        out
    }
}

} // verus!

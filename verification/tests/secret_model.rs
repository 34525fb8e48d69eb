use oagw::dto::SharingModeDto;
use oagw::ids::{SubjectId, TenantId};
use oagw::secret::{
    CredStoreError, GetSecretResponse, RefViolation, SecretMetadata, SecretRef, SecretValue,
    SharingMode,
};

#[test]
fn secret_ref_valid() {
    assert!(SecretRef::new("partner-openai-key").is_ok());
    assert!(SecretRef::new("api_key_v2").is_ok());
    assert!(SecretRef::new("ABC123").is_ok());
}

#[test]
fn secret_ref_invalid_chars() {
    assert!(SecretRef::new("my:key").is_err());
    assert!(SecretRef::new("my key").is_err());
    assert!(SecretRef::new("key/path").is_err());
}

#[test]
fn secret_ref_empty() {
    assert!(SecretRef::new("").is_err());
}

#[test]
fn secret_ref_too_long() {
    let long = "a".repeat(256);
    assert!(SecretRef::new(&long).is_err());
}

#[test]
fn secret_ref_max_length() {
    let max = "a".repeat(255);
    assert!(SecretRef::new(&max).is_ok());
}

fn rejection(candidate: &str) -> CredStoreError {
    match SecretRef::new(candidate) {
        Ok(_) => panic!("candidate was accepted"),
        Err(e) => e,
    }
}

#[test]
fn secret_ref_error_reasons() {
    assert_eq!(
        rejection(""),
        CredStoreError::InvalidSecretRef(RefViolation::Empty)
    );
    assert_eq!(
        rejection(&"x".repeat(256)),
        CredStoreError::InvalidSecretRef(RefViolation::TooLong)
    );
    assert_eq!(
        rejection("no:colons"),
        CredStoreError::InvalidSecretRef(RefViolation::InvalidChar)
    );
    assert_eq!(
        rejection("caf\u{e9}"),
        CredStoreError::InvalidSecretRef(RefViolation::InvalidChar)
    );
}

#[test]
fn secret_ref_text_round_trip() {
    let r = SecretRef::new("api_key_v2").unwrap();
    assert_eq!(r.as_str(), "api_key_v2");
    let d = r.duplicate();
    assert!(r.matches(&d));
}

#[test]
fn secret_value_debug_redacted() {
    let val = SecretValue::new(b"super-secret".to_vec());
    assert_eq!(val.redacted(), "[REDACTED]");
}

#[test]
fn secret_value_display_redacted() {
    let val = SecretValue::new(b"super-secret".to_vec());
    assert_eq!(val.redacted(), "[REDACTED]");
}

#[test]
fn secret_value_as_bytes() {
    let val = SecretValue::from_text("hello");
    assert_eq!(val.as_bytes(), b"hello");
}

#[test]
fn sharing_mode_default_is_tenant() {
    assert_eq!(SharingMode::default(), SharingMode::Tenant);
}

#[test]
fn get_secret_response_debug_redacts_value() {
    let resp = GetSecretResponse {
        value: SecretValue::from_text("secret"),
        owner_tenant_id: TenantId(0),
        sharing: SharingMode::Shared,
        is_inherited: true,
    };
    let debug = resp.describe();
    assert!(debug.contains("[REDACTED]"));
    assert!(!debug.contains("secret"));
    assert!(debug.contains("is_inherited: true"));
}

#[test]
fn secret_metadata_debug_redacts_value() {
    let meta = SecretMetadata {
        value: SecretValue::from_text("secret"),
        owner_id: SubjectId(0),
        sharing: SharingMode::Tenant,
        owner_tenant_id: TenantId(0),
    };
    let debug = meta.describe();
    assert!(debug.contains("[REDACTED]"));
    assert!(!debug.contains("secret"));
}

#[test]
fn sharing_mode_dto_round_trip() {
    for mode in [SharingMode::Private, SharingMode::Tenant, SharingMode::Shared] {
        assert_eq!(SharingModeDto::from_mode(mode).into_mode(), mode);
    }
    assert_eq!(SharingModeDto::default().into_mode(), SharingMode::Tenant);
}

use sellify_core::auth::is_public_endpoint;
use sellify_core::license::{LicenseEngine, LicenseState};

#[test]
fn test_license_engine_creation() {
    let engine = LicenseEngine::new();
    assert!(engine.is_ok());
}

#[test]
fn test_unauthorized_by_default() {
    let engine = LicenseEngine::new().unwrap();
    assert!(!engine.is_authorized());
}

#[test]
fn test_state_invalid_until_loaded() {
    let mut engine = LicenseEngine::new().unwrap();
    assert_eq!(engine.get_state(), LicenseState::Invalid);
    assert_eq!(engine.load_license(&[1, 2, 3]), LicenseState::Invalid);
    assert!(engine.get_ai_api_key().is_none());
}

#[test]
fn test_public_endpoints() {
    assert!(is_public_endpoint("/health"));
    assert!(is_public_endpoint("/api/v1/health"));
    assert!(is_public_endpoint("/metrics"));
    assert!(!is_public_endpoint("/api/v1/decision"));
}

//! Credential hashing and token issue/verify behavior.

use auth_core::token::AuthService;
use auth_core::token::TOKEN_LIFETIME_SECS;

const NOW: u64 = 1_700_000_000;

fn service() -> AuthService {
    AuthService::new("a-test-signing-secret".to_string())
}

#[test]
fn hash_then_verify_accepts_the_password() {
    let auth = service();
    let hash = auth.hash_password("Secret123!").unwrap();
    assert!(auth.verify_password("Secret123!", &hash).unwrap());
    assert!(!auth.verify_password("Secret123?", &hash).unwrap());
}

#[test]
fn hashing_salts_each_call() {
    let auth = service();
    let h1 = auth.hash_password("Secret123!").unwrap();
    let h2 = auth.hash_password("Secret123!").unwrap();
    assert_ne!(h1, h2);
    assert!(auth.verify_password("Secret123!", &h1).unwrap());
    assert!(auth.verify_password("Secret123!", &h2).unwrap());
}

#[test]
fn verify_rejects_malformed_hash() {
    let auth = service();
    assert!(auth.verify_password("Secret123!", "not-a-bcrypt-hash").is_err());
}

#[test]
fn issue_then_verify_round_trips_the_claims() {
    let auth = service();
    let token = auth.generate_token_at("42", "alice@example.com", NOW).unwrap();
    let claims = auth.validate_token_at(&token, NOW + 10).unwrap();
    assert_eq!(claims.sub, "42");
    assert_eq!(claims.email, "alice@example.com");
    assert_eq!(claims.iat, NOW);
    assert_eq!(claims.exp - claims.iat, TOKEN_LIFETIME_SECS);
    assert_eq!(TOKEN_LIFETIME_SECS, 86400);
}

#[test]
fn expired_token_is_rejected_whatever_the_signature() {
    let auth = service();
    let token = auth.generate_token_at("42", "alice@example.com", NOW).unwrap();
    let err = auth.validate_token_at(&token, NOW + TOKEN_LIFETIME_SECS).unwrap_err();
    assert_eq!(err.status_code(), 401);
    // one second before expiry it still verifies
    assert!(auth.validate_token_at(&token, NOW + TOKEN_LIFETIME_SECS - 1).is_ok());
}

#[test]
fn token_signed_with_another_secret_is_rejected() {
    let auth = service();
    let other = AuthService::new("a-different-secret".to_string());
    let token = other.generate_token_at("42", "alice@example.com", NOW).unwrap();
    let err = auth.validate_token_at(&token, NOW).unwrap_err();
    assert_eq!(err.status_code(), 401);
}

#[test]
fn garbage_token_is_rejected() {
    let auth = service();
    assert!(auth.validate_token_at("definitely.not.ajwt", NOW).is_err());
    assert!(auth.validate_token_at("", NOW).is_err());
}

#[test]
fn clock_based_issue_and_verify_work_together() {
    let auth = service();
    let token = auth.generate_token("1", "alice@example.com").unwrap();
    let claims = auth.validate_token(&token).unwrap();
    assert_eq!(claims.sub, "1");
    assert_eq!(claims.exp - claims.iat, TOKEN_LIFETIME_SECS);
    let header = format!("Bearer {}", token);
    let via_request =
        auth_core::extract::authenticate_request(&auth, Some(&header), None).unwrap();
    assert_eq!(via_request.email, "alice@example.com");
}

//! Identity extraction: header/cookie precedence and request gating.

use auth_core::extract::authenticate_request_at;
use auth_core::extract::bearer_token;
use auth_core::extract::cookie_auth_token;
use auth_core::extract::extract_token;
use auth_core::token::AuthService;

const NOW: u64 = 1_700_000_000;

fn service() -> AuthService {
    AuthService::new("a-test-signing-secret".to_string())
}

#[test]
fn bearer_header_is_parsed_exactly() {
    assert_eq!(bearer_token("Bearer abc.def.ghi").as_deref(), Some("abc.def.ghi"));
    assert_eq!(bearer_token("Bearer ").as_deref(), Some(""));
    assert!(bearer_token("bearer abc").is_none());
    assert!(bearer_token("Bearerabc").is_none());
    assert!(bearer_token("Basic abc").is_none());
    assert!(bearer_token("").is_none());
}

#[test]
fn cookie_header_is_scanned_for_auth_token() {
    assert_eq!(cookie_auth_token("auth_token=xyz").as_deref(), Some("xyz"));
    assert_eq!(cookie_auth_token("a=b; auth_token=xyz; c=d").as_deref(), Some("xyz"));
    assert_eq!(cookie_auth_token("  auth_token=xyz  ").as_deref(), Some("xyz"));
    assert_eq!(cookie_auth_token("a=b;auth_token=first;auth_token=second").as_deref(),
        Some("first"));
    assert!(cookie_auth_token("a=b; c=d").is_none());
    assert!(cookie_auth_token("auth_token=x=y").is_none());
    assert!(cookie_auth_token("auth_token").is_none());
    assert!(cookie_auth_token("").is_none());
    assert!(cookie_auth_token("auth_token =xyz").is_none());
}

#[test]
fn header_wins_over_cookie() {
    let r = extract_token(Some("Bearer from-header"), Some("auth_token=from-cookie"));
    assert_eq!(r.unwrap(), "from-header");
    // an unparsable header falls through to the cookie
    let r = extract_token(Some("Token abc"), Some("auth_token=from-cookie"));
    assert_eq!(r.unwrap(), "from-cookie");
    let r = extract_token(None, Some("auth_token=from-cookie"));
    assert_eq!(r.unwrap(), "from-cookie");
}

#[test]
fn missing_credential_is_a_401() {
    let err = extract_token(None, None).unwrap_err();
    assert_eq!(err.status_code(), 401);
    let err = extract_token(Some("Basic abc"), Some("a=b")).unwrap_err();
    assert_eq!(err.status_code(), 401);
}

#[test]
fn dashboard_stats_returns_401_without_auth() {
    let auth = service();
    let err = authenticate_request_at(&auth, None, None, NOW).unwrap_err();
    assert_eq!(err.status_code(), 401);
}

#[test]
fn dashboard_stats_returns_200_with_valid_auth() {
    let auth = service();
    let token = auth.generate_token_at("7", "test-alice@example.com", NOW).unwrap();
    let header = format!("Bearer {}", token);
    let claims = authenticate_request_at(&auth, Some(&header), None, NOW + 5).unwrap();
    assert_eq!(claims.sub, "7");
    assert_eq!(claims.email, "test-alice@example.com");
}

#[test]
fn valid_header_beats_invalid_cookie_and_cookie_alone_works() {
    let auth = service();
    let token = auth.generate_token_at("7", "alice@example.com", NOW).unwrap();
    let header = format!("Bearer {}", token);
    let claims = authenticate_request_at(
        &auth, Some(&header), Some("auth_token=garbage"), NOW).unwrap();
    assert_eq!(claims.sub, "7");

    let cookie = format!("other=1; auth_token={}", token);
    let claims = authenticate_request_at(&auth, None, Some(&cookie), NOW).unwrap();
    assert_eq!(claims.sub, "7");
}

#[test]
fn expired_or_foreign_token_in_request_is_rejected() {
    let auth = service();
    let token = auth.generate_token_at("7", "alice@example.com", NOW).unwrap();
    let header = format!("Bearer {}", token);
    let err = authenticate_request_at(&auth, Some(&header), None, NOW + 86400).unwrap_err();
    assert_eq!(err.status_code(), 401);

    let other = AuthService::new("a-different-secret".to_string());
    let foreign = other.generate_token_at("7", "alice@example.com", NOW).unwrap();
    let header = format!("Bearer {}", foreign);
    let err = authenticate_request_at(&auth, Some(&header), None, NOW).unwrap_err();
    assert_eq!(err.status_code(), 401);
}

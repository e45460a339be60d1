//! End-to-end exercises of the credential-issuing flows.

use auth_core::account::CreateUserDto;
use auth_core::account::LoginDto;
use auth_core::account::login;
use auth_core::account::refresh;
use auth_core::account::register;
use auth_core::errors::AppError;
use auth_core::token::AuthService;
use auth_core::token::Claims;
use auth_core::users::UserRepository;

const NOW: u64 = 1_700_000_000;

fn service() -> AuthService {
    AuthService::new("a-test-signing-secret".to_string())
}

fn alice_dto() -> CreateUserDto {
    CreateUserDto {
        email: "test-alice@example.com".to_string(),
        password: "password123".to_string(),
        full_name: "Test User".to_string(),
    }
}

#[test]
fn register_works_with_valid_data() {
    let mut repo = UserRepository::new();
    let auth = service();
    let (response, token) = register(&mut repo, &auth, &alice_dto(), NOW, true).unwrap();
    assert!(!token.is_empty());
    assert_eq!(response.user.email, "test-alice@example.com");
    assert_eq!(response.user.full_name, "Test User");
    assert_eq!(response.access_token.as_deref(), Some(token.as_str()));
    assert!(repo.email_exists("test-alice@example.com"));
}

#[test]
fn login_works_with_valid_credentials_and_sets_cookie() {
    let mut repo = UserRepository::new();
    let auth = service();
    register(&mut repo, &auth, &alice_dto(), NOW, false).unwrap();
    let dto = LoginDto {
        email: "test-alice@example.com".to_string(),
        password: "password123".to_string(),
    };
    let (response, token) = login(&repo, &auth, &dto, NOW, false).unwrap();
    assert!(response.access_token.is_none());
    let cookie = auth.create_auth_cookie(&token);
    assert_eq!(
        cookie,
        format!("auth_token={}; HttpOnly; Path=/; SameSite=Lax; Max-Age=604800", token)
    );
}

#[test]
fn login_fails_with_invalid_password() {
    let mut repo = UserRepository::new();
    let auth = service();
    register(&mut repo, &auth, &alice_dto(), NOW, false).unwrap();
    let dto = LoginDto {
        email: "test-alice@example.com".to_string(),
        password: "wrongpassword".to_string(),
    };
    let err = login(&repo, &auth, &dto, NOW, false).unwrap_err();
    assert_eq!(err.status_code(), 401);
}

#[test]
fn login_failure_hides_whether_email_exists() {
    let mut repo = UserRepository::new();
    let auth = service();
    register(&mut repo, &auth, &alice_dto(), NOW, false).unwrap();
    let wrong_password = LoginDto {
        email: "test-alice@example.com".to_string(),
        password: "Secret123?wrong".to_string(),
    };
    let unknown_email = LoginDto {
        email: "bob@example.com".to_string(),
        password: "Secret123!".to_string(),
    };
    let e1 = login(&repo, &auth, &wrong_password, NOW, false).unwrap_err();
    let e2 = login(&repo, &auth, &unknown_email, NOW, false).unwrap_err();
    let (m1, m2) = match (&e1, &e2) {
        (AppError::Auth(m1), AppError::Auth(m2)) => (m1.clone(), m2.clone()),
        _ => panic!("expected Auth errors"),
    };
    assert_eq!(m1, m2);
    assert_eq!(e1.status_code(), e2.status_code());
    assert_eq!(e1.public_label(), e2.public_label());
}

#[test]
fn register_rejects_taken_email_and_bad_payloads() {
    let mut repo = UserRepository::new();
    let auth = service();
    register(&mut repo, &auth, &alice_dto(), NOW, false).unwrap();
    let err = register(&mut repo, &auth, &alice_dto(), NOW, false).unwrap_err();
    assert_eq!(err.status_code(), 400);

    let bad_email = CreateUserDto {
        email: "not-an-email".to_string(),
        password: "password123".to_string(),
        full_name: "Test User".to_string(),
    };
    assert_eq!(register(&mut repo, &auth, &bad_email, NOW, false).unwrap_err().status_code(), 400);

    let short_password = CreateUserDto {
        email: "short@example.com".to_string(),
        password: "short".to_string(),
        full_name: "Test User".to_string(),
    };
    assert_eq!(
        register(&mut repo, &auth, &short_password, NOW, false).unwrap_err().status_code(),
        400
    );
}

#[test]
fn refresh_reissues_for_known_subject_only() {
    let mut repo = UserRepository::new();
    let auth = service();
    let (response, _) = register(&mut repo, &auth, &alice_dto(), NOW, false).unwrap();
    let claims = Claims {
        sub: response.user.id.to_string(),
        email: "test-alice@example.com".to_string(),
        iat: NOW,
        exp: NOW + 86400,
    };
    let (refreshed, token) = refresh(&repo, &auth, &claims, NOW + 100).unwrap();
    assert_eq!(refreshed.user.id, response.user.id);
    assert!(refreshed.access_token.is_none());
    assert!(!token.is_empty());

    let junk = Claims {
        sub: "not-a-number".to_string(),
        email: "test-alice@example.com".to_string(),
        iat: NOW,
        exp: NOW + 86400,
    };
    assert_eq!(refresh(&repo, &auth, &junk, NOW).unwrap_err().status_code(), 500);

    let unknown = Claims {
        sub: "9999".to_string(),
        email: "test-alice@example.com".to_string(),
        iat: NOW,
        exp: NOW + 86400,
    };
    assert_eq!(refresh(&repo, &auth, &unknown, NOW).unwrap_err().status_code(), 401);
}

//! Error taxonomy, input validation and the small text utilities.

use auth_core::compliance::ComplianceStatus;
use auth_core::compliance::CreateComplianceDto;
use auth_core::compliance::RiskLevel;
use auth_core::config::parse_expiration;
use auth_core::config::parse_max_file_size;
use auth_core::config::parse_port;
use auth_core::dashboard::clamp_activity_limit;
use auth_core::dashboard::default_limit;
use auth_core::errors::AppError;
use auth_core::files::validate_file_size;
use auth_core::files::validate_mime_type;
use auth_core::risk::CreateRiskScoreDto;
use auth_core::risk::RiskScoreRepository;
use auth_core::risk::UpdateRiskScoreDto;
use auth_core::risk::validate_risk_level;
use auth_core::text::parse_u64;
use auth_core::text::str_eq;
use auth_core::text::u64_to_string;

const NOW: u64 = 1_700_000_000;

#[test]
fn error_categories_drive_status_codes() {
    assert_eq!(AppError::Database("boom".into()).status_code(), 500);
    assert_eq!(AppError::Auth("no".into()).status_code(), 401);
    assert_eq!(AppError::Validation("bad".into()).status_code(), 400);
    assert_eq!(AppError::NotFound("gone".into()).status_code(), 404);
    assert_eq!(AppError::Internal("oops".into()).status_code(), 500);
    assert_eq!(AppError::Jwt("bad token".into()).status_code(), 401);
    assert_eq!(AppError::Ollama("down".into()).status_code(), 500);
    assert_eq!(AppError::Io("disk".into()).status_code(), 500);
    assert_eq!(AppError::Migrate("schema".into()).status_code(), 500);
}

#[test]
fn internal_detail_never_reaches_the_client() {
    let secret_detail = "SECRET-REDACTED connection string";
    assert_eq!(AppError::Database(secret_detail.into()).public_label(), "Database error occurred");
    assert_eq!(AppError::Internal(secret_detail.into()).public_label(), "Internal server error");
    assert_eq!(AppError::Io(secret_detail.into()).public_label(), "Internal server error");
    assert_eq!(AppError::Ollama(secret_detail.into()).public_label(), "AI service error");
    // caller-correctable categories do carry their message
    assert_eq!(AppError::Validation("Title too short".into()).public_label(), "Title too short");
    assert_eq!(AppError::NotFound("Item not found".into()).public_label(), "Item not found");
}

#[test]
fn enum_storage_strings_are_exact() {
    assert_eq!(RiskLevel::Low.as_str(), "low");
    assert_eq!(RiskLevel::Medium.as_str(), "medium");
    assert_eq!(RiskLevel::High.as_str(), "high");
    assert_eq!(RiskLevel::Critical.as_str(), "critical");
    assert_eq!(ComplianceStatus::Pending.as_str(), "pending");
    assert_eq!(ComplianceStatus::InProgress.as_str(), "in_progress");
    assert_eq!(ComplianceStatus::Completed.as_str(), "completed");
    assert_eq!(ComplianceStatus::Expired.as_str(), "expired");
}

#[test]
fn risk_levels_are_validated() {
    assert!(validate_risk_level("low").is_ok());
    assert!(validate_risk_level("critical").is_ok());
    assert_eq!(validate_risk_level("severe").unwrap_err().status_code(), 400);
    assert_eq!(validate_risk_level("").unwrap_err().status_code(), 400);

    let none_set = UpdateRiskScoreDto {
        risk_category: None,
        risk_score: None,
        risk_level: None,
        notes: None,
        ai_reasoning: None,
    };
    assert!(none_set.validate_risk_level().is_ok());
    let bad = UpdateRiskScoreDto { risk_level: Some("huge".to_string()), ..none_set };
    assert_eq!(bad.validate_risk_level().unwrap_err().status_code(), 400);
}

#[test]
fn risk_score_creation_parses_linked_ids() {
    let mut repo = RiskScoreRepository::new();
    let dto = CreateRiskScoreDto {
        compliance_item_id: "3".to_string(),
        document_id: Some("12".to_string()),
        risk_category: "Data Privacy".to_string(),
        risk_score: 77,
        risk_level: "high".to_string(),
        assessed_by: None,
        notes: None,
        ai_reasoning: None,
    };
    assert!(dto.validate().is_ok());
    let id = repo.create(9, &dto, NOW).unwrap();
    let stored = repo.find_by_id(id, 9).unwrap();
    assert_eq!(stored.data.compliance_item_id, 3);
    assert_eq!(stored.data.document_id, Some(12));
    assert_eq!(stored.data.risk_score, 77);

    let bad = CreateRiskScoreDto { compliance_item_id: "not-a-number".to_string(), ..dto };
    assert_eq!(repo.create(9, &bad, NOW).unwrap_err().status_code(), 400);

    let scores = repo.find_by_compliance_item(3, 9);
    assert_eq!(scores.len(), 1);
    assert_eq!(repo.find_by_compliance_item(3, 8).len(), 0);
}

#[test]
fn risk_score_range_and_category_are_checked() {
    let dto = CreateRiskScoreDto {
        compliance_item_id: "1".to_string(),
        document_id: None,
        risk_category: "Security".to_string(),
        risk_score: 101,
        risk_level: "high".to_string(),
        assessed_by: None,
        notes: None,
        ai_reasoning: None,
    };
    assert_eq!(dto.validate().unwrap_err().status_code(), 400);
    let empty_cat = CreateRiskScoreDto { risk_score: 50, risk_category: "".to_string(), ..dto };
    assert_eq!(empty_cat.validate().unwrap_err().status_code(), 400);
}

#[test]
fn upload_checks_enforce_size_and_mime_type() {
    assert!(validate_file_size(100, 100).is_ok());
    assert_eq!(validate_file_size(101, 100).unwrap_err().status_code(), 400);

    assert!(validate_mime_type("application/pdf").is_ok());
    assert!(validate_mime_type("text/plain").is_ok());
    assert!(validate_mime_type("text/csv").is_ok());
    assert!(validate_mime_type("application/json").is_ok());
    assert!(validate_mime_type("application/msword").is_ok());
    assert!(validate_mime_type(
        "application/vnd.openxmlformats-officedocument.wordprocessingml.document").is_ok());
    assert_eq!(validate_mime_type("image/png").unwrap_err().status_code(), 400);
}

#[test]
fn compliance_title_length_is_checked() {
    let dto = CreateComplianceDto {
        title: "ab".to_string(),
        description: None,
        risk_level: "low".to_string(),
        status: "pending".to_string(),
        due_date: None,
    };
    assert_eq!(dto.validate().unwrap_err().status_code(), 400);
    let ok = CreateComplianceDto { title: "abc".to_string(), ..dto };
    assert!(ok.validate().is_ok());
}

#[test]
fn decimal_rendering_and_parsing_round_trip() {
    assert_eq!(u64_to_string(0), "0");
    assert_eq!(u64_to_string(42), "42");
    assert_eq!(u64_to_string(18446744073709551615), "18446744073709551615");
    assert_eq!(parse_u64("0"), Some(0));
    assert_eq!(parse_u64("42"), Some(42));
    assert_eq!(parse_u64("007"), Some(7));
    assert_eq!(parse_u64("18446744073709551615"), Some(18446744073709551615));
    assert_eq!(parse_u64("18446744073709551616"), None);
    assert_eq!(parse_u64(""), None);
    assert_eq!(parse_u64("12a"), None);
    assert_eq!(parse_u64("-3"), None);
    for n in [0u64, 7, 10, 999, 123456789] {
        assert_eq!(parse_u64(&u64_to_string(n)), Some(n));
    }
}

#[test]
fn string_equality_helper_compares_contents() {
    assert!(str_eq("abc", "abc"));
    assert!(!str_eq("abc", "abd"));
    assert!(!str_eq("abc", "abcd"));
    assert!(str_eq("", ""));
}

#[test]
fn activity_listing_default_page_size() {
    assert_eq!(default_limit(), 10);
}

#[test]
fn activity_limit_is_clamped() {
    assert_eq!(clamp_activity_limit(5), 5);
    assert_eq!(clamp_activity_limit(1), 1);
    assert_eq!(clamp_activity_limit(100), 100);
    assert_eq!(clamp_activity_limit(0), 10);
    assert_eq!(clamp_activity_limit(-3), 10);
    assert_eq!(clamp_activity_limit(101), 10);
}

#[test]
fn config_values_parse_with_defaults() {
    assert_eq!(parse_port(None).unwrap(), 8000);
    assert_eq!(parse_port(Some("9999")).unwrap(), 9999);
    assert_eq!(parse_port(Some("70000")).unwrap_err().status_code(), 400);
    assert_eq!(parse_port(Some("abc")).unwrap_err().status_code(), 400);
    assert_eq!(parse_expiration(None).unwrap(), 86400);
    assert_eq!(parse_expiration(Some("3600")).unwrap(), 3600);
    assert_eq!(parse_expiration(Some("")).unwrap_err().status_code(), 400);
    assert_eq!(parse_max_file_size(None).unwrap(), 52428800);
    assert_eq!(parse_max_file_size(Some("1024")).unwrap(), 1024);
    assert_eq!(parse_max_file_size(Some("big")).unwrap_err().status_code(), 400);
}

#[test]
fn file_size_error_names_both_sizes() {
    let err = validate_file_size(101, 100).unwrap_err();
    assert_eq!(err.public_label(), "File size 101 bytes exceeds maximum 100 bytes");
}

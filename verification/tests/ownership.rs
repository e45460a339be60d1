//! Ownership scoping and partial-update merge over the resource stores.

use auth_core::compliance::ComplianceRepository;
use auth_core::compliance::CreateComplianceDto;
use auth_core::compliance::UpdateBind;
use auth_core::compliance::UpdateComplianceDto;
use auth_core::compliance::build_update_statement;
use auth_core::documents::CreateDocumentDto;
use auth_core::documents::DocumentRepository;
use auth_core::documents::DocumentResponse;
use auth_core::documents::UpdateDocumentDto;
use auth_core::documents::sanitize_filename;

const NOW: u64 = 1_700_000_000;
const ALICE: u64 = 1;
const BOB: u64 = 2;

fn item_dto(title: &str) -> CreateComplianceDto {
    CreateComplianceDto {
        title: title.to_string(),
        description: Some("a description".to_string()),
        risk_level: "high".to_string(),
        status: "pending".to_string(),
        due_date: Some(NOW + 1000),
    }
}

fn empty_patch() -> UpdateComplianceDto {
    UpdateComplianceDto {
        title: None,
        description: None,
        risk_level: None,
        status: None,
        due_date: None,
    }
}

#[test]
fn cross_tenant_access_reports_not_found_and_mutates_nothing() {
    let mut repo = ComplianceRepository::new();
    let id = repo.create(ALICE, &item_dto("Alice's item"), NOW).unwrap();

    assert!(repo.find_by_id(id, BOB).is_none());

    let mut patch = empty_patch();
    patch.title = Some("hijacked".to_string());
    assert!(repo.update(id, BOB, &patch, NOW + 5).is_none());

    assert!(!repo.delete(id, BOB));

    // the record is still there, unchanged, for its owner
    let item = repo.find_by_id(id, ALICE).unwrap();
    assert_eq!(item.data.title, "Alice's item");
    assert_eq!(item.updated_at, NOW);
    assert_eq!(repo.find_by_user(BOB).len(), 0);
    assert_eq!(repo.find_by_user(ALICE).len(), 1);
}

#[test]
fn partial_update_changes_only_present_fields() {
    let mut repo = ComplianceRepository::new();
    let id = repo.create(ALICE, &item_dto("Original title"), NOW).unwrap();

    let mut patch = empty_patch();
    patch.status = Some("completed".to_string());
    let updated = repo.update(id, ALICE, &patch, NOW + 60).unwrap();
    assert_eq!(updated.data.status, "completed");
    assert_eq!(updated.data.title, "Original title");
    assert_eq!(updated.data.description.as_deref(), Some("a description"));
    assert_eq!(updated.data.risk_level, "high");
    assert_eq!(updated.data.due_date, Some(NOW + 1000));
    assert_eq!(updated.updated_at, NOW + 60);
    assert_eq!(updated.created_at, NOW);
}

#[test]
fn empty_update_returns_current_row_without_touching_it() {
    let mut repo = ComplianceRepository::new();
    let id = repo.create(ALICE, &item_dto("Keep me"), NOW).unwrap();
    let current = repo.update(id, ALICE, &empty_patch(), NOW + 60).unwrap();
    assert_eq!(current.data.title, "Keep me");
    // the update timestamp was not advanced by the no-op update
    assert_eq!(current.updated_at, NOW);
}

#[test]
fn listing_is_owner_scoped_and_newest_first_with_id_tiebreak() {
    let mut repo = ComplianceRepository::new();
    let first = repo.create(ALICE, &item_dto("first"), NOW).unwrap();
    let newest = repo.create(ALICE, &item_dto("newest"), NOW + 50).unwrap();
    let tied = repo.create(ALICE, &item_dto("tied with first"), NOW).unwrap();
    repo.create(BOB, &item_dto("bob's"), NOW + 99).unwrap();

    let items = repo.find_by_user(ALICE);
    assert_eq!(items.len(), 3);
    assert_eq!(items[0].id, newest);
    // equal creation times order by ascending id
    assert_eq!(items[1].id, first);
    assert_eq!(items[2].id, tied);
    assert!(items.iter().all(|i| i.owner == ALICE));
}

#[test]
fn update_statement_has_fixed_order_and_matching_parameter_count() {
    let mut patch = empty_patch();
    patch.status = Some("completed".to_string());
    patch.title = Some("New title".to_string());
    let (clauses, binds, count) = build_update_statement(&patch);
    assert_eq!(clauses, vec!["title = $3".to_string(), "status = $4".to_string()]);
    assert_eq!(binds.len(), 2);
    assert!(matches!(&binds[0], UpdateBind::Text(t) if t == "New title"));
    assert!(matches!(&binds[1], UpdateBind::Text(t) if t == "completed"));
    assert_eq!(count, 4);

    let (clauses, binds, count) = build_update_statement(&empty_patch());
    assert!(clauses.is_empty());
    assert!(binds.is_empty());
    assert_eq!(count, 2);

    let full = UpdateComplianceDto {
        title: Some("t".to_string()),
        description: Some("d".to_string()),
        risk_level: Some("low".to_string()),
        status: Some("pending".to_string()),
        due_date: Some(NOW),
    };
    let (clauses, binds, count) = build_update_statement(&full);
    assert_eq!(
        clauses,
        vec![
            "title = $3".to_string(),
            "description = $4".to_string(),
            "risk_level = $5".to_string(),
            "status = $6".to_string(),
            "due_date = $7".to_string(),
        ]
    );
    assert_eq!(binds.len(), 5);
    assert_eq!(count, 7);
}

#[test]
fn documents_follow_the_same_ownership_discipline() {
    let mut repo = DocumentRepository::new();
    let dto = CreateDocumentDto {
        filename: "report.txt".to_string(),
        file_path: "uploads/report.txt".to_string(),
        file_size: 120,
        mime_type: "text/plain".to_string(),
        extracted_text: Some("hello".to_string()),
    };
    assert!(dto.validate().is_ok());
    let id = repo.create(ALICE, &dto, NOW).unwrap();

    assert!(repo.find_by_id(id, BOB).is_none());
    assert!(!repo.delete(id, BOB));

    let patch = UpdateDocumentDto {
        extracted_text: None,
        ai_analysis: Some("{\"summary\":\"ok\"}".to_string()),
    };
    let updated = repo.update(id, ALICE, &patch, NOW + 3).unwrap();
    assert_eq!(updated.data.extracted_text.as_deref(), Some("hello"));
    assert_eq!(updated.data.ai_analysis.as_deref(), Some("{\"summary\":\"ok\"}"));

    let doc = repo.find_by_id(id, ALICE).unwrap();
    let response = DocumentResponse::from_document(doc);
    assert_eq!(response.filename, "report.txt");
    assert!(response.has_extracted_text);
    assert!(response.has_ai_analysis);
    assert_eq!(response.uploaded_at, NOW);

    assert!(repo.delete(id, ALICE));
    assert!(repo.find_by_id(id, ALICE).is_none());
}

#[test]
fn invalid_document_payloads_are_refused() {
    let bad = CreateDocumentDto {
        filename: "".to_string(),
        file_path: "uploads/x".to_string(),
        file_size: 1,
        mime_type: "text/plain".to_string(),
        extracted_text: None,
    };
    assert_eq!(bad.validate().unwrap_err().status_code(), 400);
    let empty = CreateDocumentDto {
        filename: "x".to_string(),
        file_path: "uploads/x".to_string(),
        file_size: 0,
        mime_type: "text/plain".to_string(),
        extracted_text: None,
    };
    assert_eq!(empty.validate().unwrap_err().status_code(), 400);
}

#[test]
fn filenames_are_sanitized_to_a_safe_alphabet() {
    assert_eq!(sanitize_filename("My Report (v2)!"), "My_Report__v2__");
    assert_eq!(sanitize_filename("already-safe_name1"), "already-safe_name1");
    assert_eq!(sanitize_filename(""), "");
}

//! End-to-end scenarios for the ownership-gated mutation protocol.

use issue_tracker::errors::{ApiError, AuthError};
use issue_tracker::handlers::{create_issue, delete_issue, get_issue, list_issues, update_issue};
use issue_tracker::model::{Claim, IssuePayload};
use issue_tracker::store::Store;

fn payload(title: &str) -> IssuePayload {
    IssuePayload {
        title: title.to_string(),
        description: "a description".to_string(),
        status: "open".to_string(),
        label: "bug".to_string(),
    }
}

fn as_subject(subject: &str) -> Result<Claim, AuthError> {
    Ok(Claim { subject: subject.to_string() })
}

#[test]
fn create_then_get_returns_created_payload() {
    let mut store = Store::new();
    let created = create_issue(&mut store, &payload("first"), &as_subject("u1")).unwrap();
    assert_eq!(created.id, 1);
    assert_eq!(created.title, "first");
    assert_eq!(created.description, "a description");
    assert_eq!(created.status, "open");
    assert_eq!(created.label, "bug");
    assert_eq!(created.author, "u1");

    let fetched = get_issue(&store, created.id).unwrap();
    assert_eq!(fetched.id, created.id);
    assert_eq!(fetched.title, created.title);
    assert_eq!(fetched.description, created.description);
    assert_eq!(fetched.status, created.status);
    assert_eq!(fetched.label, created.label);
    assert_eq!(fetched.author, created.author);
}

#[test]
fn author_comes_from_claim_and_ids_are_fresh() {
    let mut store = Store::new();
    let a = create_issue(&mut store, &payload("one"), &as_subject("alice")).unwrap();
    let b = create_issue(&mut store, &payload("two"), &as_subject("bob")).unwrap();
    assert_eq!(a.id, 1);
    assert_eq!(b.id, 2);
    assert_eq!(a.author, "alice");
    assert_eq!(b.author, "bob");
}

#[test]
fn create_requires_authentication() {
    let mut store = Store::new();
    let err = create_issue(&mut store, &payload("x"), &Err(AuthError::MissingCredential))
        .unwrap_err();
    assert_eq!(err, ApiError::MissingCredential);
    assert!(list_issues(&store).is_empty());
}

#[test]
fn update_by_owner_changes_only_mutable_fields() {
    // Scenario: create as "u1" (id 1), patch the title to "B" as "u1",
    // read back "B"; a patch as "u2" is an ownership rejection and the
    // record is unchanged.
    let mut store = Store::new();
    let created = create_issue(&mut store, &payload("A"), &as_subject("u1")).unwrap();
    assert_eq!(created.id, 1);

    let patch = IssuePayload {
        title: "B".to_string(),
        description: "a description".to_string(),
        status: "open".to_string(),
        label: "bug".to_string(),
    };
    update_issue(&mut store, 1, &patch, &as_subject("u1")).unwrap();
    let after = get_issue(&store, 1).unwrap();
    assert_eq!(after.title, "B");
    assert_eq!(after.id, 1);
    assert_eq!(after.author, "u1");

    let foreign = IssuePayload {
        title: "C".to_string(),
        description: "another".to_string(),
        status: "closed".to_string(),
        label: "task".to_string(),
    };
    let err = update_issue(&mut store, 1, &foreign, &as_subject("u2")).unwrap_err();
    assert_eq!(err, ApiError::OwnershipMismatch);
    let unchanged = get_issue(&store, 1).unwrap();
    assert_eq!(unchanged.title, "B");
    assert_eq!(unchanged.description, "a description");
    assert_eq!(unchanged.status, "open");
    assert_eq!(unchanged.label, "bug");
    assert_eq!(unchanged.author, "u1");
}

#[test]
fn delete_by_non_owner_is_rejected() {
    let mut store = Store::new();
    create_issue(&mut store, &payload("keep me"), &as_subject("u1")).unwrap();
    let err = delete_issue(&mut store, 1, &as_subject("u2")).unwrap_err();
    assert_eq!(err, ApiError::OwnershipMismatch);
    assert!(get_issue(&store, 1).is_ok());
}

#[test]
fn delete_then_get_yields_not_found() {
    let mut store = Store::new();
    create_issue(&mut store, &payload("gone soon"), &as_subject("u1")).unwrap();
    delete_issue(&mut store, 1, &as_subject("u1")).unwrap();
    let err = get_issue(&store, 1).unwrap_err();
    assert_eq!(err, ApiError::NotFound);
}

#[test]
fn second_delete_yields_not_found() {
    let mut store = Store::new();
    create_issue(&mut store, &payload("once"), &as_subject("u1")).unwrap();
    delete_issue(&mut store, 1, &as_subject("u1")).unwrap();
    let err = delete_issue(&mut store, 1, &as_subject("u1")).unwrap_err();
    assert_eq!(err, ApiError::NotFound);
}

#[test]
fn get_nonexistent_is_not_found_regardless_of_authentication() {
    // Scenario: reading id 999 answers not-found whether or not the caller
    // ever authenticated; reads take no credential at all.
    let mut store = Store::new();
    let before = get_issue(&store, 999).unwrap_err();
    assert_eq!(before, ApiError::NotFound);

    create_issue(&mut store, &payload("unrelated"), &as_subject("u1")).unwrap();
    let failed_delete = delete_issue(&mut store, 999, &Err(AuthError::InvalidCredential));
    assert_eq!(failed_delete.unwrap_err(), ApiError::InvalidCredential);

    let after = get_issue(&store, 999).unwrap_err();
    assert_eq!(after, ApiError::NotFound);
}

#[test]
fn missing_credential_on_delete_leaves_record_present() {
    // Scenario: a delete with no bearer credential is an unauthorized-class
    // rejection and the record is still there afterwards.
    let mut store = Store::new();
    create_issue(&mut store, &payload("still here"), &as_subject("u1")).unwrap();
    let err = delete_issue(&mut store, 1, &Err(AuthError::MissingCredential)).unwrap_err();
    assert_eq!(err, ApiError::MissingCredential);
    assert_eq!(err.status_code(), 401);
    let row = get_issue(&store, 1).unwrap();
    assert_eq!(row.title, "still here");
}

#[test]
fn reads_succeed_identically_around_failed_authentication() {
    // Reads admit no credential; their answers depend on the store alone,
    // so they are the same before and after authentication failures.
    let mut store = Store::new();
    create_issue(&mut store, &payload("readable"), &as_subject("u1")).unwrap();

    let listed_before = list_issues(&store);
    let fetched_before = get_issue(&store, 1).unwrap();

    let _ = update_issue(&mut store, 1, &payload("x"), &Err(AuthError::MissingCredential));
    let _ = delete_issue(&mut store, 1, &Err(AuthError::InvalidCredential));

    let listed_after = list_issues(&store);
    let fetched_after = get_issue(&store, 1).unwrap();
    assert_eq!(listed_before.len(), listed_after.len());
    assert_eq!(listed_before[0].title, listed_after[0].title);
    assert_eq!(fetched_before.title, fetched_after.title);
    assert_eq!(fetched_before.author, fetched_after.author);
}

#[test]
fn list_returns_all_rows_in_store_order() {
    let mut store = Store::new();
    create_issue(&mut store, &payload("one"), &as_subject("u1")).unwrap();
    create_issue(&mut store, &payload("two"), &as_subject("u2")).unwrap();
    create_issue(&mut store, &payload("three"), &as_subject("u1")).unwrap();
    let rows = list_issues(&store);
    assert_eq!(rows.len(), 3);
    assert_eq!(rows[0].title, "one");
    assert_eq!(rows[1].title, "two");
    assert_eq!(rows[2].title, "three");
    assert_eq!(rows[1].author, "u2");
}

#[test]
fn update_of_nonexistent_row_is_not_found_even_when_authenticated() {
    let mut store = Store::new();
    let err = update_issue(&mut store, 7, &payload("x"), &as_subject("anyone")).unwrap_err();
    assert_eq!(err, ApiError::NotFound);
}

#[test]
fn deleted_id_is_not_reused() {
    let mut store = Store::new();
    create_issue(&mut store, &payload("first"), &as_subject("u1")).unwrap();
    delete_issue(&mut store, 1, &as_subject("u1")).unwrap();
    let second = create_issue(&mut store, &payload("second"), &as_subject("u1")).unwrap();
    assert_eq!(second.id, 2);
}

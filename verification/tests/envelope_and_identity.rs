//! The response envelope, the error mapping, and identity resolution.

use issue_tracker::envelope::{failure_envelope, success_envelope, ResponseStatus};
use issue_tracker::errors::{api_error_of_auth, ApiError, AuthError};
use issue_tracker::identity::{public_profile, resolve_self, resolve_user, IdentityRecord};
use issue_tracker::model::Claim;

fn record(subject: &str) -> IdentityRecord {
    IdentityRecord {
        subject: subject.to_string(),
        username: Some("handle".to_string()),
        first_name: Some("Ada".to_string()),
        last_name: None,
        avatar_url: Some("https://example.test/a.png".to_string()),
    }
}

#[test]
fn status_codes_follow_the_canonical_mapping() {
    assert_eq!(ApiError::MissingCredential.status_code(), 401);
    assert_eq!(ApiError::InvalidCredential.status_code(), 401);
    assert_eq!(ApiError::OwnershipMismatch.status_code(), 403);
    assert_eq!(ApiError::NotFound.status_code(), 404);
    assert_eq!(ApiError::StoreFailure.status_code(), 500);
    assert_eq!(ApiError::UpstreamIdentityFailure.status_code(), 500);
}

#[test]
fn failure_messages_leak_no_internal_detail() {
    assert_eq!(ApiError::StoreFailure.public_message(), "Something went wrong.");
    assert_eq!(
        ApiError::UpstreamIdentityFailure.public_message(),
        "Unable to retrieve user."
    );
    assert_eq!(ApiError::NotFound.public_message(), "Issue does not exist.");
}

#[test]
fn auth_errors_map_into_the_common_taxonomy() {
    assert_eq!(
        api_error_of_auth(AuthError::MissingCredential),
        ApiError::MissingCredential
    );
    assert_eq!(
        api_error_of_auth(AuthError::InvalidCredential),
        ApiError::InvalidCredential
    );
}

#[test]
fn envelopes_carry_the_uniform_shape() {
    let ok = success_envelope("Created the issue successfully".to_string());
    assert_eq!(ok.status, ResponseStatus::Success);
    assert_eq!(ok.status.label(), "SUCCESS");
    assert_eq!(ok.message, "Created the issue successfully");

    let bad = failure_envelope(&ApiError::OwnershipMismatch);
    assert_eq!(bad.status, ResponseStatus::Failed);
    assert_eq!(bad.status.label(), "FAILED");
    assert_eq!(bad.message, "Not authorized to modify the issue.");
}

#[test]
fn projection_copies_the_public_fields() {
    let p = public_profile(&record("user_1"));
    assert_eq!(p.subject, "user_1");
    assert_eq!(p.username.as_deref(), Some("handle"));
    assert_eq!(p.first_name.as_deref(), Some("Ada"));
    assert_eq!(p.last_name, None);
    assert_eq!(p.avatar_url.as_deref(), Some("https://example.test/a.png"));
}

#[test]
fn self_lookup_needs_authentication() {
    let err = resolve_self(&Err(AuthError::MissingCredential), &None).unwrap_err();
    assert_eq!(err, ApiError::MissingCredential);
}

#[test]
fn self_lookup_surfaces_provider_failure_as_upstream_error() {
    let auth = Ok(Claim { subject: "user_1".to_string() });
    let err = resolve_self(&auth, &None).unwrap_err();
    assert_eq!(err, ApiError::UpstreamIdentityFailure);
    assert_eq!(err.status_code(), 500);
}

#[test]
fn self_lookup_returns_the_callers_projection() {
    let auth = Ok(Claim { subject: "user_1".to_string() });
    let profile = resolve_self(&auth, &Some(record("user_1"))).unwrap();
    assert_eq!(profile.subject, "user_1");
    assert_eq!(profile.username.as_deref(), Some("handle"));
}

#[test]
fn user_lookup_is_unauthenticated() {
    let profile = resolve_user(&Some(record("someone"))).unwrap();
    assert_eq!(profile.subject, "someone");
    let err = resolve_user(&None).unwrap_err();
    assert_eq!(err, ApiError::UpstreamIdentityFailure);
}

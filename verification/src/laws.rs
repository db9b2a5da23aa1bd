//! The laws of the ownership-gated mutation protocol, proved over the same
//! spec transitions the handlers are verified against.

use vstd::prelude::*;
use crate::errors::{ApiError, AuthError};
use crate::model::{IssueView, PayloadView, new_row};
use crate::handlers::{create_spec, delete_spec, get_spec, update_spec};

verus! {

/// After a create authenticated as `subject`, reading the assigned id
/// returns exactly the created row: the payload's fields under the
/// store-assigned id, with the creator's subject as author.
pub proof fn lemma_create_then_get(
    contents: Map<u64, IssueView>,
    fresh_id: u64,
    payload: PayloadView,
    subject: Seq<char>,
)
    ensures
        ({
            let (after, answer) = create_spec(contents, fresh_id, payload, Ok(subject));
            let created = new_row(fresh_id, payload, subject);
            &&& answer == Ok::<IssueView, ApiError>(created)
            &&& get_spec(after, fresh_id) == Ok::<IssueView, ApiError>(created)
            &&& created.id == fresh_id
            &&& created.title == payload.title
            &&& created.description == payload.description
            &&& created.status == payload.status
            &&& created.label == payload.label
            &&& created.author == subject
        }),
{
}

/// A mutation of a row authenticated as anyone but its author is always an
/// ownership rejection: never a success, and never a silent no-op — the
/// store is left exactly as it was.
pub proof fn lemma_non_owner_mutation_rejected(
    contents: Map<u64, IssueView>,
    id: u64,
    payload: PayloadView,
    owner: Seq<char>,
    other: Seq<char>,
)
    requires
        contents.contains_key(id),
        contents[id].author == owner,
        owner != other,
    ensures
        update_spec(contents, id, payload, Ok(other)) == (
            contents,
            Err::<(), ApiError>(ApiError::OwnershipMismatch),
        ),
        delete_spec(contents, id, Ok(other)) == (
            contents,
            Err::<(), ApiError>(ApiError::OwnershipMismatch),
        ),
{
}

/// After any successful delete of an id, reading that id yields not-found.
pub proof fn lemma_delete_then_get(
    contents: Map<u64, IssueView>,
    id: u64,
    auth: Result<Seq<char>, AuthError>,
)
    requires
        delete_spec(contents, id, auth).1 is Ok,
    ensures
        get_spec(delete_spec(contents, id, auth).0, id) == Err::<IssueView, ApiError>(
            ApiError::NotFound,
        ),
{
}

/// Delete is idempotent in effect: after a successful delete of an id, a
/// second delete of the same id — by any authenticated caller — answers
/// not-found and changes nothing.
pub proof fn lemma_second_delete_not_found(
    contents: Map<u64, IssueView>,
    id: u64,
    auth: Result<Seq<char>, AuthError>,
    later_subject: Seq<char>,
)
    requires
        delete_spec(contents, id, auth).1 is Ok,
    ensures
        ({
            let after = delete_spec(contents, id, auth).0;
            delete_spec(after, id, Ok(later_subject)) == (
                after,
                Err::<(), ApiError>(ApiError::NotFound),
            )
        }),
{
}

/// Read operations are independent of credentials. `list_issues` and
/// `get_issue` admit no credential in their signatures, so a read's outcome
/// is a function of the store contents alone; and the only rejection a read
/// can answer is not-found — never an authentication or ownership class.
pub proof fn lemma_read_rejections_are_only_not_found(contents: Map<u64, IssueView>, id: u64)
    ensures
        get_spec(contents, id) is Err ==> get_spec(contents, id) == Err::<IssueView, ApiError>(
            ApiError::NotFound,
        ),
        get_spec(contents, id) is Err <==> !contents.contains_key(id),
{
}

/// An authentication failure answers with that failure alone, whatever the
/// store holds: it never leaks whether the target row exists.
pub proof fn lemma_auth_failure_hides_existence(
    contents_a: Map<u64, IssueView>,
    contents_b: Map<u64, IssueView>,
    id: u64,
    payload: PayloadView,
    error: AuthError,
)
    ensures
        update_spec(contents_a, id, payload, Err(error)).1 == update_spec(
            contents_b,
            id,
            payload,
            Err(error),
        ).1,
        delete_spec(contents_a, id, Err(error)).1 == delete_spec(contents_b, id, Err(error)).1,
        update_spec(contents_a, id, payload, Err(error)).0 == contents_a,
        delete_spec(contents_a, id, Err(error)).0 == contents_a,
{
}

/// The existence check is reported before the ownership comparison: an
/// authenticated caller aiming at a nonexistent row sees not-found, not an
/// ownership rejection, whoever they are.
pub proof fn lemma_missing_row_reported_before_ownership(
    contents: Map<u64, IssueView>,
    id: u64,
    payload: PayloadView,
    subject: Seq<char>,
)
    requires
        !contents.contains_key(id),
    ensures
        update_spec(contents, id, payload, Ok(subject)) == (
            contents,
            Err::<(), ApiError>(ApiError::NotFound),
        ),
        delete_spec(contents, id, Ok(subject)) == (
            contents,
            Err::<(), ApiError>(ApiError::NotFound),
        ),
{
}

} // verus!

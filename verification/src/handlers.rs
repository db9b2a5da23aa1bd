//! The five resource operations, each proved against a mathematical
//! transition over the store's abstract map. Reads take no credential at
//! all; mutations pass the check of `auth` and touch the store only when
//! it allows.

use vstd::prelude::*;
use crate::auth::{auth_view, mutation_gate, mutation_gate_spec};
use crate::errors::{ApiError, AuthError, api_error_of_auth_spec};
use crate::model::{Claim, Issue, IssuePayload, IssueView, PayloadView, new_row, updated_row};
use crate::store::Store;

verus! {

/// What `get` returns for a store and an id: the row, or not-found.
pub open spec fn get_spec(contents: Map<u64, IssueView>, id: u64) -> Result<IssueView, ApiError> {
    if contents.contains_key(id) {
        Ok(contents[id])
    } else {
        Err(ApiError::NotFound)
    }
}

/// What `create` does: an authentication failure is reported and the store
/// is untouched; otherwise a row for the payload, authored by the claim's
/// subject, is added under the fresh id. The result is the new contents and
/// the handler's answer.
pub open spec fn create_spec(
    contents: Map<u64, IssueView>,
    fresh_id: u64,
    payload: PayloadView,
    auth: Result<Seq<char>, AuthError>,
) -> (Map<u64, IssueView>, Result<IssueView, ApiError>) {
    match auth {
        Err(e) => (contents, Err(api_error_of_auth_spec(e))),
        Ok(subject) => (
            contents.insert(fresh_id, new_row(fresh_id, payload, subject)),
            Ok(new_row(fresh_id, payload, subject)),
        ),
    }
}

/// What `update` does: the mutation check weighs authentication, existence and
/// ownership; only when it allows are the mutable fields of the addressed
/// row overwritten, its id and author kept.
pub open spec fn update_spec(
    contents: Map<u64, IssueView>,
    id: u64,
    payload: PayloadView,
    auth: Result<Seq<char>, AuthError>,
) -> (Map<u64, IssueView>, Result<(), ApiError>) {
    let row = if contents.contains_key(id) {
        Some(contents[id])
    } else {
        None
    };
    match mutation_gate_spec(auth, row) {
        Some(e) => (contents, Err(e)),
        None => (contents.insert(id, updated_row(contents[id], payload)), Ok(())),
    }
}

/// What `delete` does: the same gate, then removal of the addressed row.
pub open spec fn delete_spec(
    contents: Map<u64, IssueView>,
    id: u64,
    auth: Result<Seq<char>, AuthError>,
) -> (Map<u64, IssueView>, Result<(), ApiError>) {
    let row = if contents.contains_key(id) {
        Some(contents[id])
    } else {
        None
    };
    match mutation_gate_spec(auth, row) {
        Some(e) => (contents, Err(e)),
        None => (contents.remove(id), Ok(())),
    }
}

/// List every row. Unauthenticated; the order is the store's own and not
/// part of the contract beyond being reported faithfully.
pub fn list_issues(store: &Store) -> (rows: Vec<Issue>)
    requires
        store.wf(),
    ensures
        rows@.map_values(|r: Issue| r@) == store.row_views(),
{
    store.all_rows()
}

/// Read one row by id. Unauthenticated; not-found exactly when no row
/// carries the id.
pub fn get_issue(store: &Store, id: u64) -> (result: Result<Issue, ApiError>)
    requires
        store.wf(),
    ensures
        match result {
            Ok(row) => get_spec(store.as_map(), id) == Ok::<IssueView, ApiError>(row@) && row.id
                == id,
            Err(e) => get_spec(store.as_map(), id) == Err::<IssueView, ApiError>(e),
        },
{
    match store.lookup(id) {
        Some(row) => Ok(row),
        None => Err(ApiError::NotFound),
    }
}

/// Create a row for a payload. The caller must be authenticated; the author
/// is stamped from the verified claim, never taken from the payload; the
/// store assigns the id.
pub fn create_issue(store: &mut Store, payload: &IssuePayload, auth: &Result<Claim, AuthError>) -> (
    result: Result<Issue, ApiError>)
    requires
        old(store).wf(),
        old(store).next_id_spec() < u64::MAX,
    ensures
        final(store).wf(),
        result is Ok ==> final(store).next_id_spec() == old(store).next_id_spec() + 1,
        ({
            let (contents, answer) = create_spec(
                old(store).as_map(),
                old(store).next_id_spec(),
                payload@,
                auth_view(*auth),
            );
            &&& final(store).as_map() == contents
            &&& match result {
                Ok(row) => answer == Ok::<IssueView, ApiError>(row@) && row.id == old(
                    store,
                ).next_id_spec() && !old(store).as_map().contains_key(row.id),
                Err(e) => answer == Err::<IssueView, ApiError>(e) && *final(store) == *old(store),
            }
        }),
    {
    match auth {
        Err(e) => {
            Err(crate::errors::api_error_of_auth(*e))
        },
        Ok(claim) => {
            let created = store.insert_new(payload, &claim.subject);
            Ok(created)
        },
    }
}

/// Update the mutable fields of a row. Requires, in order: authentication,
/// existence of the target, ownership. On a rejection the store is exactly
/// as it was.
pub fn update_issue(
    store: &mut Store,
    id: u64,
    payload: &IssuePayload,
    auth: &Result<Claim, AuthError>,
) -> (result: Result<(), ApiError>)
    requires
        old(store).wf(),
    ensures
        final(store).wf(),
        final(store).next_id_spec() == old(store).next_id_spec(),
        ({
            let (contents, answer) = update_spec(old(store).as_map(), id, payload@, auth_view(*auth));
            &&& final(store).as_map() == contents
            &&& result == answer
            &&& result is Err ==> *final(store) == *old(store)
        }),
    {
    let fetched = store.lookup(id);
    let decision = mutation_gate(auth, &fetched);
    match decision {
        Some(e) => Err(e),
        None => {
            store.update_fields(id, payload);
            Ok(())
        },
    }
}

/// Delete a row. The same gate as update; deleting an id with no row yields
/// not-found, never a crash, so a second delete of the same id is a clean
/// not-found.
pub fn delete_issue(store: &mut Store, id: u64, auth: &Result<Claim, AuthError>) -> (result: Result<
    (),
    ApiError,
>)
    requires
        old(store).wf(),
    ensures
        final(store).wf(),
        final(store).next_id_spec() == old(store).next_id_spec(),
        ({
            let (contents, answer) = delete_spec(old(store).as_map(), id, auth_view(*auth));
            &&& final(store).as_map() == contents
            &&& result == answer
            &&& result is Err ==> *final(store) == *old(store)
        }),
    {
    let fetched = store.lookup(id);
    let decision = mutation_gate(auth, &fetched);
    match decision {
        Some(e) => Err(e),
        None => {
            store.remove_by_id(id);
            Ok(())
        },
    }
}

} // verus!

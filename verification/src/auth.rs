//! The authorization core: a small state machine that turns an inbound
//! bearer credential into a verified claim or a rejection, the ownership
//! rule that compares the claim's subject against a row's author, and the
//! gate that every mutating operation runs before it touches the store.
//!
//! Read operations never pass through here: any caller may read any row.
//! The mutation check weighs one thing at a time and stops at the first
//! failure: an authentication failure reports only the authentication error
//! and so never leaks whether the target row exists, and a missing row is
//! reported before
//! the ownership comparison, so an authenticated non-owner of a nonexistent
//! row sees not-found, not forbidden.

use vstd::prelude::*;
use crate::errors::{ApiError, AuthError, api_error_of_auth_spec, api_error_of_auth};
use crate::model::{Claim, Issue, IssueView};

verus! {

/// What the transport extracted from the request: either no bearer
/// credential, or the raw token that was presented.
pub enum Credential {
    Absent,
    Bearer(String),
}

/// The identity verifier's answer for one presented token.
pub enum Verdict {
    Accepted(Claim),
    Rejected,
}

/// The authentication state machine, advanced by one request's events.
pub enum AuthState {
    /// No event has arrived yet.
    Start,
    /// A token was presented and awaits the verifier's verdict.
    Pending(String),
    /// The verifier accepted the token; the claim is established.
    Granted(Claim),
    /// Authentication failed terminally for this request.
    Denied(AuthError),
}

/// An event the machine consumes: the credential extracted from the
/// request, then the verifier's verdict on a presented token.
pub enum AuthEvent {
    Presented(Credential),
    Checked(Verdict),
}

impl AuthState {
    /// A state from which no further event is consumed.
    pub open spec fn is_final(self) -> bool {
        match self {
            AuthState::Granted(_) => true,
            AuthState::Denied(_) => true,
            _ => false,
        }
    }
}

/// The transition relation of the machine. An absent credential denies at
/// once; a presented token waits for the verifier; the verdict settles a
/// pending token. An event that does not fit the state leaves it unchanged.
pub open spec fn auth_next(state: AuthState, event: AuthEvent) -> AuthState {
    match (state, event) {
        (AuthState::Start, AuthEvent::Presented(Credential::Absent)) => AuthState::Denied(
            AuthError::MissingCredential,
        ),
        (AuthState::Start, AuthEvent::Presented(Credential::Bearer(token))) => AuthState::Pending(
            token,
        ),
        (AuthState::Pending(_), AuthEvent::Checked(Verdict::Accepted(claim))) => AuthState::Granted(
            claim,
        ),
        (AuthState::Pending(_), AuthEvent::Checked(Verdict::Rejected)) => AuthState::Denied(
            AuthError::InvalidCredential,
        ),
        (s, _) => s,
    }
}

/// Advance the machine by one event.
pub fn auth_step(state: AuthState, event: AuthEvent) -> (next: AuthState)
    ensures
        next == auth_next(state, event),
{
    match (state, event) {
        (AuthState::Start, AuthEvent::Presented(Credential::Absent)) => AuthState::Denied(
            AuthError::MissingCredential,
        ),
        (AuthState::Start, AuthEvent::Presented(Credential::Bearer(token))) => AuthState::Pending(
            token,
        ),
        (AuthState::Pending(_), AuthEvent::Checked(Verdict::Accepted(claim))) => AuthState::Granted(
            claim,
        ),
        (AuthState::Pending(_), AuthEvent::Checked(Verdict::Rejected)) => AuthState::Denied(
            AuthError::InvalidCredential,
        ),
        (s, _) => s,
    }
}

/// The authentication outcome for a whole request, as a function of the
/// extracted credential and, where a token was presented, the verifier's
/// verdict on it.
pub open spec fn auth_outcome_spec(
    credential: Credential,
    verdict: Option<Verdict>,
) -> Result<Claim, AuthError> {
    match credential {
        Credential::Absent => Err(AuthError::MissingCredential),
        Credential::Bearer(_) => match verdict {
            Some(Verdict::Accepted(claim)) => Ok(claim),
            _ => Err(AuthError::InvalidCredential),
        },
    }
}

/// Run the machine to its final state for one request. The verifier is
/// consulted only between the two events, outside this crate; its verdict
/// arrives here as a plain value, present exactly when a token was
/// presented.
pub fn authenticate(credential: Credential, verdict: Option<Verdict>) -> (outcome: Result<
    Claim,
    AuthError,
>)
    requires
        credential is Bearer <==> verdict is Some,
    ensures
        outcome == auth_outcome_spec(credential, verdict),
        outcome is Err ==> api_error_of_auth_spec(outcome->Err_0) != ApiError::OwnershipMismatch
            && api_error_of_auth_spec(outcome->Err_0) != ApiError::NotFound,
{
    let after_credential = auth_step(AuthState::Start, AuthEvent::Presented(credential));
    match after_credential {
        AuthState::Denied(e) => Err(e),
        AuthState::Pending(_) => {
            let settled = match verdict {
                Some(v) => auth_step(after_credential, AuthEvent::Checked(v)),
                None => AuthState::Denied(AuthError::InvalidCredential),
            };
            match settled {
                AuthState::Granted(claim) => Ok(claim),
                AuthState::Denied(e) => Err(e),
                _ => Err(AuthError::InvalidCredential),
            }
        },
        _ => Err(AuthError::InvalidCredential),
    }
}

/// Whether a claim may mutate a row: exact equality of the claim's subject
/// and the row's author, nothing else.
pub open spec fn owns(subject: Seq<char>, row: IssueView) -> bool {
    row.author == subject
}

/// The pure ownership comparison: `true` iff the claim's subject equals the
/// row's author. No store or network access.
pub fn authorize_ownership(claim: &Claim, resource: &Issue) -> (allowed: bool)
    ensures
        allowed == owns(claim@, resource@),
{
    claim.subject == resource.author
}

/// The decision every mutating operation takes before touching the store,
/// in order: authentication, existence of the target, ownership. `None`
/// means the mutation may proceed.
pub open spec fn mutation_gate_spec(
    auth: Result<Seq<char>, AuthError>,
    row: Option<IssueView>,
) -> Option<ApiError> {
    match auth {
        Err(e) => Some(api_error_of_auth_spec(e)),
        Ok(subject) => match row {
            None => Some(ApiError::NotFound),
            Some(r) => if owns(subject, r) {
                None
            } else {
                Some(ApiError::OwnershipMismatch)
            },
        },
    }
}

/// The view of an authentication outcome: the claim's subject, or the error.
pub open spec fn auth_view(auth: Result<Claim, AuthError>) -> Result<Seq<char>, AuthError> {
    match auth {
        Ok(claim) => Ok(claim@),
        Err(e) => Err(e),
    }
}

/// Run the mutation gate against the fetched target row.
pub fn mutation_gate(auth: &Result<Claim, AuthError>, row: &Option<Issue>) -> (decision: Option<
    ApiError,
>)
    ensures
        decision == mutation_gate_spec(auth_view(*auth), row_view(*row)),
{
    match auth {
        Err(e) => Some(api_error_of_auth(*e)),
        Ok(claim) => match row {
            None => Some(ApiError::NotFound),
            Some(r) => if authorize_ownership(claim, r) {
                None
            } else {
                Some(ApiError::OwnershipMismatch)
            },
        },
    }
}

/// The view of a fetched row.
pub open spec fn row_view(row: Option<Issue>) -> Option<IssueView> {
    match row {
        Some(r) => Some(r@),
        None => None,
    }
}

} // verus!

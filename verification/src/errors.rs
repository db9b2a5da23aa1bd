//! The error taxonomy of the service and its fixed mapping to HTTP status
//! classes and public messages.
//!
//! Every request error is terminal and maps deterministically to one status
//! code and one human-readable message. Store and identity-provider failures
//! surface only a generic message, never internal detail. The canonical
//! mapping is: missing or invalid credential -> unauthorized (401), valid
//! credential but wrong owner -> forbidden (403), absent resource -> not
//! found (404), store or provider failure -> internal error (500).

use vstd::prelude::*;

verus! {

/// Why authentication failed: no bearer credential was presented, or the
/// identity verifier rejected the one that was.
#[derive(Clone, Copy, PartialEq, Eq, Structural, Debug)]
pub enum AuthError {
    MissingCredential,
    InvalidCredential,
}

/// Every way a request can fail, across authentication, authorization,
/// the resource store and the identity provider.
#[derive(Clone, Copy, PartialEq, Eq, Structural, Debug)]
pub enum ApiError {
    MissingCredential,
    InvalidCredential,
    OwnershipMismatch,
    NotFound,
    StoreFailure,
    UpstreamIdentityFailure,
}

impl ApiError {
    /// The HTTP status code this error maps to.
    pub open spec fn status_code_spec(self) -> u16 {
        match self {
            ApiError::MissingCredential => 401,
            ApiError::InvalidCredential => 401,
            ApiError::OwnershipMismatch => 403,
            ApiError::NotFound => 404,
            ApiError::StoreFailure => 500,
            ApiError::UpstreamIdentityFailure => 500,
        }
    }

    pub fn status_code(&self) -> (code: u16)
        ensures
            code == self.status_code_spec(),
    {
        match self {
            ApiError::MissingCredential => 401,
            ApiError::InvalidCredential => 401,
            ApiError::OwnershipMismatch => 403,
            ApiError::NotFound => 404,
            ApiError::StoreFailure => 500,
            ApiError::UpstreamIdentityFailure => 500,
        }
    }

    /// The message surfaced to the caller. Store and provider failures get a
    /// generic message so no internal detail leaks.
    pub open spec fn message_spec(self) -> Seq<char> {
        match self {
            ApiError::MissingCredential => "No credential was provided."@,
            ApiError::InvalidCredential => "The credential could not be verified."@,
            ApiError::OwnershipMismatch => "Not authorized to modify the issue."@,
            ApiError::NotFound => "Issue does not exist."@,
            ApiError::StoreFailure => "Something went wrong."@,
            ApiError::UpstreamIdentityFailure => "Unable to retrieve user."@,
        }
    }

    pub fn public_message(&self) -> (message: String)
        ensures
            message@ == self.message_spec(),
    {
        match self {
            ApiError::MissingCredential => "No credential was provided.".to_string(),
            ApiError::InvalidCredential => "The credential could not be verified.".to_string(),
            ApiError::OwnershipMismatch => "Not authorized to modify the issue.".to_string(),
            ApiError::NotFound => "Issue does not exist.".to_string(),
            ApiError::StoreFailure => "Something went wrong.".to_string(),
            ApiError::UpstreamIdentityFailure => "Unable to retrieve user.".to_string(),
        }
    }
}

/// How an authentication failure is reported through the common taxonomy.
pub open spec fn api_error_of_auth_spec(e: AuthError) -> ApiError {
    match e {
        AuthError::MissingCredential => ApiError::MissingCredential,
        AuthError::InvalidCredential => ApiError::InvalidCredential,
    }
}

pub fn api_error_of_auth(e: AuthError) -> (r: ApiError)
    ensures
        r == api_error_of_auth_spec(e),
{
    match e {
        AuthError::MissingCredential => ApiError::MissingCredential,
        AuthError::InvalidCredential => ApiError::InvalidCredential,
    }
}

} // verus!

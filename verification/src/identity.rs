//! Identity lookups: the public projection of a provider profile, and the
//! two resolution operations. The provider itself is an external
//! collaborator; its answer arrives here as a plain record, and only the
//! projection ever leaves.

use vstd::prelude::*;
use crate::errors::{ApiError, AuthError, api_error_of_auth_spec, api_error_of_auth};
use crate::model::Claim;

verus! {

/// What the identity provider reports for one subject, reduced to plain
/// values: the stable subject identifier and the optional profile fields
/// the projection reads.
#[derive(Debug)]
pub struct IdentityRecord {
    pub subject: String,
    pub username: Option<String>,
    pub first_name: Option<String>,
    pub last_name: Option<String>,
    pub avatar_url: Option<String>,
}

/// The public projection of a profile: handle, name parts and avatar,
/// never the raw provider record.
#[derive(Debug)]
pub struct UserProfile {
    pub subject: String,
    pub username: Option<String>,
    pub first_name: Option<String>,
    pub last_name: Option<String>,
    pub avatar_url: Option<String>,
}

/// Ghost view of a profile or record: the fields as character sequences.
pub ghost struct ProfileView {
    pub subject: Seq<char>,
    pub username: Option<Seq<char>>,
    pub first_name: Option<Seq<char>>,
    pub last_name: Option<Seq<char>>,
    pub avatar_url: Option<Seq<char>>,
}

/// The view of an optional text field.
pub open spec fn opt_view(field: Option<String>) -> Option<Seq<char>> {
    match field {
        Some(s) => Some(s@),
        None => None,
    }
}

impl View for IdentityRecord {
    type V = ProfileView;

    open spec fn view(&self) -> ProfileView {
        ProfileView {
            subject: self.subject@,
            username: opt_view(self.username),
            first_name: opt_view(self.first_name),
            last_name: opt_view(self.last_name),
            avatar_url: opt_view(self.avatar_url),
        }
    }
}

impl View for UserProfile {
    type V = ProfileView;

    open spec fn view(&self) -> ProfileView {
        ProfileView {
            subject: self.subject@,
            username: opt_view(self.username),
            first_name: opt_view(self.first_name),
            last_name: opt_view(self.last_name),
            avatar_url: opt_view(self.avatar_url),
        }
    }
}

/// Clone an optional text field; the view is preserved.
fn duplicate_opt(field: &Option<String>) -> (copy: Option<String>)
    ensures
        opt_view(copy) == opt_view(*field),
{
    match field {
        Some(s) => Some(s.clone()),
        None => None,
    }
}

/// Project a provider record onto the public profile, field for field.
pub fn public_profile(record: &IdentityRecord) -> (profile: UserProfile)
    ensures
        profile@ == record@,
{
    UserProfile {
        subject: record.subject.clone(),
        username: duplicate_opt(&record.username),
        first_name: duplicate_opt(&record.first_name),
        last_name: duplicate_opt(&record.last_name),
        avatar_url: duplicate_opt(&record.avatar_url),
    }
}

/// Resolve the caller's own profile. The caller must be authenticated; the
/// provider is then asked for the claim's subject, and its answer arrives
/// as `lookup`. A provider failure surfaces as an upstream error.
pub fn resolve_self(auth: &Result<Claim, AuthError>, lookup: &Option<IdentityRecord>) -> (result:
    Result<UserProfile, ApiError>)
    requires
        auth matches Ok(claim) && lookup matches Some(record) ==> record.subject@ == claim.subject@,
    ensures
        match *auth {
            Err(e) => result == Err::<UserProfile, ApiError>(api_error_of_auth_spec(e)),
            Ok(claim) => match *lookup {
                None => result == Err::<UserProfile, ApiError>(ApiError::UpstreamIdentityFailure),
                Some(record) => result matches Ok(profile) && profile@ == record@
                    && profile.subject@ == claim.subject@,
            },
        },
{
    match auth {
        Err(e) => Err(api_error_of_auth(*e)),
        Ok(_) => match lookup {
            None => Err(ApiError::UpstreamIdentityFailure),
            Some(record) => Ok(public_profile(record)),
        },
    }
}

/// Resolve an arbitrary subject's profile. No authentication; a provider
/// failure surfaces as an upstream error.
pub fn resolve_user(lookup: &Option<IdentityRecord>) -> (result: Result<UserProfile, ApiError>)
    ensures
        match *lookup {
            None => result == Err::<UserProfile, ApiError>(ApiError::UpstreamIdentityFailure),
            Some(record) => result matches Ok(profile) && profile@ == record@,
        },
{
    match lookup {
        None => Err(ApiError::UpstreamIdentityFailure),
        Some(record) => Ok(public_profile(record)),
    }
}

} // verus!

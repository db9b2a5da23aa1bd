//! The uniform response wrapper every handler answers with: a success or
//! failure marker and a human-readable message. Building it here once keeps
//! the shape identical across handlers.

use vstd::prelude::*;
use crate::errors::ApiError;

verus! {

/// The outcome marker of an envelope.
#[derive(Clone, Copy, PartialEq, Eq, Structural, Debug)]
pub enum ResponseStatus {
    Success,
    Failed,
}

/// The uniform response wrapper: `{status, message}`. Row data travels
/// beside it, typed, where an operation returns any.
pub struct Envelope {
    pub status: ResponseStatus,
    pub message: String,
}

impl ResponseStatus {
    /// The wire label of the marker.
    pub open spec fn label_spec(self) -> Seq<char> {
        match self {
            ResponseStatus::Success => "SUCCESS"@,
            ResponseStatus::Failed => "FAILED"@,
        }
    }

    pub fn label(&self) -> (label: String)
        ensures
            label@ == self.label_spec(),
    {
        match self {
            ResponseStatus::Success => "SUCCESS".to_string(),
            ResponseStatus::Failed => "FAILED".to_string(),
        }
    }
}

/// A success envelope with the given message.
pub fn success_envelope(message: String) -> (envelope: Envelope)
    ensures
        envelope.status == ResponseStatus::Success,
        envelope.message@ == message@,
{
    Envelope { status: ResponseStatus::Success, message }
}

/// The failure envelope for an error: marked failed, carrying exactly the
/// error's public message.
pub fn failure_envelope(error: &ApiError) -> (envelope: Envelope)
    ensures
        envelope.status == ResponseStatus::Failed,
        envelope.message@ == error.message_spec(),
{
    Envelope { status: ResponseStatus::Failed, message: error.public_message() }
}

} // verus!

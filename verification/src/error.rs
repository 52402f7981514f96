//! Errors of the protocol.

use vstd::prelude::*;
use crate::text::concat3;

verus! {

/// An error of the protocol.
#[derive(Debug, Clone, PartialEq, Eq)]
pub enum ProtocolError {
    InvalidTransition { from: String, event: String },
    PolicyDenied { reason: String },
    VerificationFailed { reason: String },
    CheckpointNotFound { id: String },
    StaleCheckpoint { created_at: String },
    /// A value could not be serialized or deserialized; the serializer's message.
    Serialization(String),
}

/// The message of a protocol error.
pub open spec fn protocol_error_text(e: ProtocolError) -> Seq<char> {
    match e {
        ProtocolError::InvalidTransition { from, event } => "Invalid state transition from "@ + from@ + " via "@ + event@,
        ProtocolError::PolicyDenied { reason } => "Policy denied action: "@ + reason@,
        ProtocolError::VerificationFailed { reason } => "Artifact verification failed: "@ + reason@,
        ProtocolError::CheckpointNotFound { id } => "Checkpoint not found: "@ + id@,
        ProtocolError::StaleCheckpoint { created_at } => "Checkpoint is stale (created at "@ + created_at@ + ")"@,
        ProtocolError::Serialization(m) => "Serialization error: "@ + m@,
    }
}

impl ProtocolError {
    /// The error's message, as its `Display` renders it.
    pub fn message(&self) -> (r: String)
        ensures
            r@ == protocol_error_text(*self),
    {
        match self {
            ProtocolError::InvalidTransition { from, event } => {
                let mut r = concat3("Invalid state transition from ", from.as_str(), " via ");
                r.append(event.as_str());
                r
            },
            ProtocolError::PolicyDenied { reason } => crate::text::concat("Policy denied action: ", reason.as_str()),
            ProtocolError::VerificationFailed { reason } => crate::text::concat("Artifact verification failed: ", reason.as_str()),
            ProtocolError::CheckpointNotFound { id } => crate::text::concat("Checkpoint not found: ", id.as_str()),
            ProtocolError::StaleCheckpoint { created_at } => concat3("Checkpoint is stale (created at ", created_at.as_str(), ")"),
            ProtocolError::Serialization(m) => crate::text::concat("Serialization error: ", m.as_str()),
        }
    }
}

} // verus!

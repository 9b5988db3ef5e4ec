//! Structured error taxonomy of the backend.
//!
//! Internally every failure is one of these variants; only the outermost
//! boundary flattens an error to descriptive text, which keeps the error
//! kinds distinguishable inside the library.

use vstd::prelude::*;

verus! {

/// Error kinds for session, transfer and database operations.
#[derive(Debug)]
pub enum OpsError {
    /// A session, task or connection identifier is not registered.
    NotFound(String),
    /// Credentials were rejected by the remote peer.
    AuthFailed(String),
    /// The transport could not be established or broke down.
    TransportFailed(String),
    /// The remote peer reported a protocol-level failure.
    ProtocolFailed(String),
    /// A required field is missing or malformed for the requested mode.
    InvalidInput(String),
    /// The operation stopped because its task was cancelled; not a true error.
    Cancelled,
}

impl OpsError {
    /// The descriptive text a caller at the outermost boundary receives.
    pub open spec fn message_spec(self) -> Seq<char> {
        match self {
            OpsError::NotFound(m) => m@,
            OpsError::AuthFailed(m) => m@,
            OpsError::TransportFailed(m) => m@,
            OpsError::ProtocolFailed(m) => m@,
            OpsError::InvalidInput(m) => m@,
            OpsError::Cancelled => "transfer cancelled"@,
        }
    }

    /// Flatten the error to its descriptive text.
    pub fn message(&self) -> (r: String)
        ensures
            r@ == self.message_spec(),
    {
        match self {
            OpsError::NotFound(m) => m.clone(),
            OpsError::AuthFailed(m) => m.clone(),
            OpsError::TransportFailed(m) => m.clone(),
            OpsError::ProtocolFailed(m) => m.clone(),
            OpsError::InvalidInput(m) => m.clone(),
            OpsError::Cancelled => String::from_str("transfer cancelled"),
        }
    }
}

} // verus!

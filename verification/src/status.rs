//! The error taxonomy of the agent's public operations.

use vstd::prelude::*;

verus! {

/// Why an operation was refused. Every refusal is a returned value; no
/// public operation of this crate panics.
#[derive(Clone, Copy, Debug, PartialEq, Eq, Structural)]
pub enum Status {
    /// The request is malformed: a required sub-message is absent, the
    /// vector has the wrong length, or the identifier is already taken.
    InvalidArgument,
    /// The operation needs the engine, and the engine has not been created
    /// yet. Returned instead of treating a misordered startup as fatal.
    NotInitialized,
    /// The engine, or the protocol run against it, misbehaved: a handle
    /// batch of the wrong size, or a handle that is duplicated or already
    /// bound.
    Internal,
    /// The operation is defined by the service surface but not built here.
    /// The service stays healthy; only this call is refused.
    Unimplemented,
}

impl Status {
    /// The description text of each refusal.
    pub open spec fn spec_message(&self) -> Seq<char> {
        match self {
            Status::InvalidArgument => "invalid argument"@,
            Status::NotInitialized => "index is not initialized"@,
            Status::Internal => "internal error"@,
            Status::Unimplemented => "not implemented"@,
        }
    }

    /// A short human-readable description, for embedding in stream replies.
    pub fn message(&self) -> (r: String)
        ensures
            r@ == self.spec_message(),
    {
        match self {
            Status::InvalidArgument => "invalid argument".to_string(),
            Status::NotInitialized => "index is not initialized".to_string(),
            Status::Internal => "internal error".to_string(),
            Status::Unimplemented => "not implemented".to_string(),
        }
    }
}

} // verus!

//! The engine's error kinds and the messages the shell shows for them.

use vstd::prelude::*;
use vstd::string::StringExecFns;

verus! {

/// Every failure a foreground operation can surface to its caller.
#[derive(Clone, Copy, Debug, PartialEq, Eq, Structural)]
pub enum EngineError {
    /// The submitted URL does not match the pull-request pattern.
    InvalidUrl,
    /// No credential is stored, so the remote service cannot be called.
    NoCredential,
    /// A record with the same (owner, repo, number) triple already exists.
    DuplicateRecord,
    /// The remote service could not deliver the pull request's status.
    RemoteFetchFailed,
    /// The remote service rejected the branch-update request.
    RemoteUpdateFailed,
    /// Durable storage failed on a read or write.
    StoreIOFailure,
}

/// The user-visible message of each error kind.
pub open spec fn spec_message(e: EngineError) -> Seq<char> {
    match e {
        EngineError::InvalidUrl => "Failed to parse PR"@,
        EngineError::NoCredential => "There is no token, can't check pr details"@,
        EngineError::DuplicateRecord => "Pull request already exists"@,
        EngineError::RemoteFetchFailed => "Can't load pr details"@,
        EngineError::RemoteUpdateFailed => "Can't update pr branch"@,
        EngineError::StoreIOFailure => "Storage operation failed"@,
    }
}

impl EngineError {
    /// Renders the error for display.
    pub fn message(&self) -> (r: String)
        ensures
            r@ == spec_message(*self),
    {
        match self {
            EngineError::InvalidUrl => String::from_str("Failed to parse PR"),
            EngineError::NoCredential => String::from_str(
                "There is no token, can't check pr details",
            ),
            EngineError::DuplicateRecord => String::from_str("Pull request already exists"),
            EngineError::RemoteFetchFailed => String::from_str("Can't load pr details"),
            EngineError::RemoteUpdateFailed => String::from_str("Can't update pr branch"),
            EngineError::StoreIOFailure => String::from_str("Storage operation failed"),
        }
    }
}

} // verus!

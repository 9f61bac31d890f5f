//! The ways an action can be rejected.

use vstd::prelude::*;

verus! {

/// Why an action was rejected.
///
/// Fatal consistency violations mean the submitted proof disagrees with the
/// locally recorded pending actions; the transition aborts with no state
/// mutation and must not be retried as submitted. Recoverable errors are
/// reported to the submitter, who may resubmit with corrected input.
#[derive(Clone, Copy, Debug, PartialEq, Eq, Structural)]
pub enum ProtocolError {
    /// A spawn was requested while an earlier spawn is still unconfirmed. Fatal.
    ConflictingSpawn,
    /// A spawn confirmation named no pending spawn, or a different one. Fatal.
    SpawnMismatch,
    /// A receive named a message other than the queue's head. Fatal.
    MessageMismatch,
    /// A receive was declared while the message queue is empty. Recoverable.
    QueueEmpty,
    /// The oracle rejected the submitted proof. Recoverable: resubmit another.
    InvalidProof,
    /// The initial state blob is absent from the auxiliary store. Recoverable.
    BlobNotFound,
    /// The oracle found the stored process state corrupt. Fatal.
    MalformedState,
}

impl ProtocolError {
    /// Whether the error is a fatal consistency violation, as opposed to a
    /// recoverable submission error that the caller may correct and resubmit.
    pub open spec fn spec_is_fatal(self) -> bool {
        match self {
            ProtocolError::ConflictingSpawn => true,
            ProtocolError::SpawnMismatch => true,
            ProtocolError::MessageMismatch => true,
            ProtocolError::QueueEmpty => false,
            ProtocolError::InvalidProof => false,
            ProtocolError::BlobNotFound => false,
            ProtocolError::MalformedState => true,
        }
    }

    pub fn is_fatal(&self) -> (r: bool)
        ensures
            r == self.spec_is_fatal(),
    {
        match self {
            ProtocolError::ConflictingSpawn => true,
            ProtocolError::SpawnMismatch => true,
            ProtocolError::MessageMismatch => true,
            ProtocolError::MalformedState => true,
            ProtocolError::QueueEmpty => false,
            ProtocolError::InvalidProof => false,
            ProtocolError::BlobNotFound => false,
        }
    }
}

} // verus!

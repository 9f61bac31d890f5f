//! Identifiers: digests, ledger (chain) identifiers, message identifiers,
//! process identifiers, and owner identities.

use vstd::prelude::*;

verus! {

/// A 256-bit digest, held as four 64-bit limbs.
#[derive(Clone, Copy, Debug, Hash, PartialEq, Eq, Structural)]
pub struct CryptoHash {
    pub part1: u64,
    pub part2: u64,
    pub part3: u64,
    pub part4: u64,
}

impl From<[u64; 4]> for CryptoHash {
    fn from(parts: [u64; 4]) -> (h: CryptoHash) {
        CryptoHash { part1: parts[0], part2: parts[1], part3: parts[2], part4: parts[3] }
    }
}

impl vstd::std_specs::convert::FromSpecImpl<[u64; 4]> for CryptoHash {
    open spec fn obeys_from_spec() -> bool {
        true
    }

    open spec fn from_spec(parts: [u64; 4]) -> CryptoHash {
        CryptoHash { part1: parts[0], part2: parts[1], part3: parts[2], part4: parts[3] }
    }
}

/// The identity of one isolated, single-writer ledger.
#[derive(Clone, Copy, Debug, Hash, PartialEq, Eq, Structural)]
pub struct ChainId {
    pub hash: CryptoHash,
}

/// The identity of one delivered message: the ledger it was sent from,
/// the height at which it was committed there, and its index in that block.
#[derive(Clone, Copy, Debug, Hash, PartialEq, Eq, Structural)]
pub struct MessageId {
    pub chain_id: ChainId,
    pub height: u64,
    pub index: u32,
}

/// The identity of one process instance: the creation message that opened
/// its ledger, and the ledger itself. Immutable once assigned; used as the
/// address for message delivery and as the value a pending spawn is checked
/// against.
#[derive(Clone, Copy, Debug, Hash, PartialEq, Eq, Structural)]
pub struct ProcessId {
    /// The identifier of the message that requested the ledger's creation.
    pub message_id: MessageId,
    /// The identifier of the created ledger itself.
    pub chain_id: ChainId,
}

impl ProcessId {
    pub fn new(message_id: MessageId, chain_id: ChainId) -> (pid: ProcessId)
        ensures
            pid == (ProcessId { message_id, chain_id }),
    {
        ProcessId { message_id, chain_id }
    }
}

/// The identity of an account that may act on a ledger.
#[derive(Clone, Copy, Debug, Hash, PartialEq, Eq, Structural)]
pub struct Owner {
    pub hash: CryptoHash,
}

} // verus!

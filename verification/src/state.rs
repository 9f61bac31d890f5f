//! The durable state of one process: a triple of opaque byte blobs.

use vstd::prelude::*;

verus! {

/// The mathematical value of a [`ProcessState`].
#[verifier::ext_equal]
pub struct StateView {
    pub proofs: Seq<u8>,
    pub program: Seq<u8>,
    pub aux: Seq<u8>,
}

/// The durable, proof-validated state of one process: the accumulated
/// proofs, the opaque program state, and the auxiliary index state.
/// Owned exclusively by one ledger and mutated only through accepted
/// transitions.
#[derive(Clone, Debug, PartialEq, Eq)]
pub struct ProcessState {
    /// All transition proofs accumulated so far.
    pub proofs: Vec<u8>,
    /// The opaque program state.
    pub program: Vec<u8>,
    /// The auxiliary index state.
    pub aux: Vec<u8>,
}

impl View for ProcessState {
    type V = StateView;

    open spec fn view(&self) -> StateView {
        StateView { proofs: self.proofs@, program: self.program@, aux: self.aux@ }
    }
}

impl ProcessState {
    /// The state a process holds before its first accepted start action.
    pub open spec fn spec_empty() -> StateView {
        StateView { proofs: Seq::empty(), program: Seq::empty(), aux: Seq::empty() }
    }

    pub fn new(proofs: Vec<u8>, program: Vec<u8>, aux: Vec<u8>) -> (s: ProcessState)
        ensures
            s@ == (StateView { proofs: proofs@, program: program@, aux: aux@ }),
    {
        ProcessState { proofs, program, aux }
    }
}

impl Default for ProcessState {
    fn default() -> (s: ProcessState)
        ensures
            s@ == ProcessState::spec_empty(),
    {
        let s = ProcessState { proofs: Vec::new(), program: Vec::new(), aux: Vec::new() };
        proof {
            assert(s@ =~= ProcessState::spec_empty());
        }
        s
    }
}

} // verus!

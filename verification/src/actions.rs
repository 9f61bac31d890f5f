//! The declared pre- and post-actions of a program step, the oracle's
//! reported outcome, the ownership policy of a newly opened ledger, and the
//! gateway directives a transition emits.

use vstd::prelude::*;

use crate::ids::{Owner, ProcessId};
use crate::state::{ProcessState, StateView};

verus! {

/// What a program step requires to have already happened, as declared by
/// the oracle for the submitted proof.
#[derive(Clone, Debug)]
pub enum PreAction {
    /// The step has no precondition on local bookkeeping.
    Nothing,
    /// The step confirms that the named child was spawned; the pending
    /// spawn slot must hold exactly this identifier.
    ConfirmSpawn(ProcessId),
    /// The step consumes an inbound message; the queue's head must hold
    /// exactly this payload.
    Receive(Vec<u8>),
}

/// The mathematical value of a [`PreAction`].
#[verifier::ext_equal]
pub enum PreActionView {
    Nothing,
    ConfirmSpawn(ProcessId),
    Receive(Seq<u8>),
}

impl View for PreAction {
    type V = PreActionView;

    open spec fn view(&self) -> PreActionView {
        match self {
            PreAction::Nothing => PreActionView::Nothing,
            PreAction::ConfirmSpawn(pid) => PreActionView::ConfirmSpawn(*pid),
            PreAction::Receive(m) => PreActionView::Receive(m@),
        }
    }
}

/// What must happen after a program step, as declared by the oracle for the
/// new state.
#[derive(Clone, Debug)]
pub enum PostAction {
    /// Nothing; the transition is complete.
    Nothing,
    /// A child process must be spawned on a newly opened ledger.
    Spawn,
    /// A message must be dispatched to the named process, fire-and-forget.
    Send(ProcessId, Vec<u8>),
}

/// The mathematical value of a [`PostAction`].
#[verifier::ext_equal]
pub enum PostActionView {
    Nothing,
    Spawn,
    Send(ProcessId, Seq<u8>),
}

impl View for PostAction {
    type V = PostActionView;

    open spec fn view(&self) -> PostActionView {
        match self {
            PostAction::Nothing => PostActionView::Nothing,
            PostAction::Spawn => PostActionView::Spawn,
            PostAction::Send(pid, m) => PostActionView::Send(*pid, m@),
        }
    }
}

/// What the oracle reported for an apply step on (proof, prior state).
#[derive(Clone, Debug)]
pub enum StepOutcome {
    /// The proof checked: the new state, and the declared post-action.
    Applied(ProcessState, PostAction),
    /// The proof did not check; the caller may resubmit a different one.
    InvalidProof,
    /// The prior state was corrupt; the ledger has diverged. Fatal.
    MalformedState,
}

/// The mathematical value of a [`StepOutcome`].
#[verifier::ext_equal]
pub enum StepOutcomeView {
    Applied(StateView, PostActionView),
    InvalidProof,
    MalformedState,
}

impl View for StepOutcome {
    type V = StepOutcomeView;

    open spec fn view(&self) -> StepOutcomeView {
        match self {
            StepOutcome::Applied(s, post) => StepOutcomeView::Applied(s@, post@),
            StepOutcome::InvalidProof => StepOutcomeView::InvalidProof,
            StepOutcome::MalformedState => StepOutcomeView::MalformedState,
        }
    }
}

/// The weight each participant carries in a shared ledger, and the quorum
/// required: both participants weigh the same and either alone falls short.
pub const EQUAL_WEIGHT: u64 = 100;

/// The timeout fallback a shared ledger is configured with.
#[derive(Clone, Copy, Debug, PartialEq, Eq, Structural)]
pub struct TimeoutConfig {
    /// After this many milliseconds without a quorum, the ledger falls back
    /// to its recovery round.
    pub fallback_ms: u64,
}

/// Who may act on a newly opened ledger.
#[derive(Clone, Copy, Debug, PartialEq, Eq, Structural)]
pub enum ChainOwnership {
    /// One controller with unrestricted rights.
    SingleSuper { owner: Owner },
    /// Two participants with equal weight, a quorum that needs both, and a
    /// timeout fallback.
    Shared {
        first: Owner,
        second: Owner,
        first_weight: u64,
        second_weight: u64,
        quorum: u64,
        timeout: TimeoutConfig,
    },
}

impl ChainOwnership {
    /// The value [`ChainOwnership::shared`] constructs.
    pub open spec fn shared_spec(first: Owner, second: Owner, timeout: TimeoutConfig) -> ChainOwnership {
        ChainOwnership::Shared {
            first,
            second,
            first_weight: EQUAL_WEIGHT,
            second_weight: EQUAL_WEIGHT,
            quorum: EQUAL_WEIGHT,
            timeout,
        }
    }

    /// The policy a single-process coordinator spawns children with.
    pub fn single_super(owner: Owner) -> (o: ChainOwnership)
        ensures
            o == (ChainOwnership::SingleSuper { owner }),
    {
        ChainOwnership::SingleSuper { owner }
    }

    /// The policy a paired root opens session ledgers with: two-of-two,
    /// equal weights, and the given timeout fallback.
    pub fn shared(first: Owner, second: Owner, timeout: TimeoutConfig) -> (o: ChainOwnership)
        ensures
            o == (ChainOwnership::Shared {
                first,
                second,
                first_weight: EQUAL_WEIGHT,
                second_weight: EQUAL_WEIGHT,
                quorum: EQUAL_WEIGHT,
                timeout,
            }),
    {
        ChainOwnership::Shared {
            first,
            second,
            first_weight: EQUAL_WEIGHT,
            second_weight: EQUAL_WEIGHT,
            quorum: EQUAL_WEIGHT,
            timeout,
        }
    }
}

/// What the driver must ask the chain-lifecycle gateway to do next. Every
/// directive is fire-and-forget at this layer: the transition that emitted
/// it does not depend on any reply, except that an `OpenChain` directive is
/// answered by handing the new process identifier back to the coordinator.
#[derive(Clone, Debug, PartialEq, Eq)]
pub enum Directive {
    /// Nothing; the transition ended with no outward effect.
    Nothing,
    /// Open a new isolated ledger under this ownership policy and hand the
    /// returned process identifier back to the coordinator.
    OpenChain(ChainOwnership),
    /// Deliver the bootstrap start message to the newly spawned process.
    SendStart(ProcessId),
    /// Deliver this payload to the named process.
    Send(ProcessId, Vec<u8>),
}

/// The mathematical value of a [`Directive`].
#[verifier::ext_equal]
pub enum DirectiveView {
    Nothing,
    OpenChain(ChainOwnership),
    SendStart(ProcessId),
    Send(ProcessId, Seq<u8>),
}

impl View for Directive {
    type V = DirectiveView;

    open spec fn view(&self) -> DirectiveView {
        match self {
            Directive::Nothing => DirectiveView::Nothing,
            Directive::OpenChain(o) => DirectiveView::OpenChain(*o),
            Directive::SendStart(pid) => DirectiveView::SendStart(*pid),
            Directive::Send(pid, m) => DirectiveView::Send(*pid, m@),
        }
    }
}

} // verus!

//! The paired variant: a root ledger shared by exactly two participants
//! opens one child ledger per logical session, mirrors each child's
//! identity into a per-participant index, and the child ledger runs the
//! transition machine on its own state.

use vstd::prelude::*;

use crate::actions::{ChainOwnership, Directive, DirectiveView, TimeoutConfig};
use crate::errors::ProtocolError;
use crate::ids::{Owner, ProcessId};
use crate::state::{ProcessState, StateView};

verus! {

/// The mathematical value of a [`PairedRoot`].
#[verifier::ext_equal]
pub struct RootView {
    /// The two participants, recorded permanently at the first session.
    pub owners: Option<(Owner, Owner)>,
    /// Every session ledger the first participant can act on, in opening order.
    pub first_index: Seq<ProcessId>,
    /// The same, mirrored for the second participant.
    pub second_index: Seq<ProcessId>,
    /// A session ledger was requested and its identifier is awaited.
    pub opening: bool,
}

/// An insertion-ordered set: the identifier joins the tail unless already
/// present.
pub open spec fn spec_index_insert(s: Seq<ProcessId>, pid: ProcessId) -> Seq<ProcessId> {
    if s.contains(pid) {
        s
    } else {
        s.push(pid)
    }
}

/// Which session index a participant may consult: the first participant's,
/// the second's, or none for a stranger.
pub open spec fn spec_sessions_for(v: RootView, owner: Owner) -> Option<Seq<ProcessId>> {
    match v.owners {
        Some(p) => if p.0 == owner {
            Some(v.first_index)
        } else if p.1 == owner {
            Some(v.second_index)
        } else {
            None
        },
        None => None,
    }
}

/// The root ledger of the paired variant. It opens one child ledger per
/// session under two-of-two shared ownership and keeps, per participant, an
/// insertion-ordered set of every session ledger opened — identical for
/// both, by design, and maintained only for external lookup.
#[derive(Debug)]
pub struct PairedRoot {
    owners: Option<(Owner, Owner)>,
    first_index: Vec<ProcessId>,
    second_index: Vec<ProcessId>,
    opening: bool,
}

impl View for PairedRoot {
    type V = RootView;

    closed spec fn view(&self) -> RootView {
        RootView {
            owners: self.owners,
            first_index: self.first_index@,
            second_index: self.second_index@,
            opening: self.opening,
        }
    }
}

impl RootView {
    /// Internal consistency: the two indexes mirror each other exactly and
    /// hold no duplicates.
    pub open spec fn wf(self) -> bool {
        &&& self.first_index == self.second_index
        &&& forall|i: int, j: int|
            0 <= i < j < self.first_index.len() ==> self.first_index[i] != self.first_index[j]
    }
}

impl PairedRoot {
    /// A root ledger on which no session was ever started.
    pub fn new() -> (r: PairedRoot)
        ensures
            r@ == (RootView {
                owners: None,
                first_index: Seq::empty(),
                second_index: Seq::empty(),
                opening: false,
            }),
            r@.wf(),
    {
        let r = PairedRoot {
            owners: None,
            first_index: Vec::new(),
            second_index: Vec::new(),
            opening: false,
        };
        proof {
            assert(r@ =~= RootView {
                owners: None,
                first_index: Seq::empty(),
                second_index: Seq::empty(),
                opening: false,
            });
        }
        r
    }

    /// Starts a session: records the two participants — permanently, so a
    /// later session must name the same pair — and directs the driver to
    /// open a session ledger under two-of-two ownership with equal weights
    /// and the given timeout fallback. The gateway's identifier is handed
    /// back through [`PairedRoot::register_session`].
    pub fn begin_session(&mut self, first: Owner, second: Owner, timeout: TimeoutConfig) -> (d:
        Directive)
        requires
            old(self)@.wf(),
            !old(self)@.opening,
            old(self)@.owners is None || old(self)@.owners == Some((first, second)),
        ensures
            final(self)@.wf(),
            final(self)@ == (RootView {
                owners: Some((first, second)),
                opening: true,
                ..old(self)@
            }),
            d@ == DirectiveView::OpenChain(ChainOwnership::shared_spec(first, second, timeout)),
    {
        self.owners = Some((first, second));
        self.opening = true;
        proof {
            assert(self@ =~= RootView {
                owners: Some((first, second)),
                opening: true,
                ..old(self)@
            });
        }
        Directive::OpenChain(ChainOwnership::shared(first, second, timeout))
    }

    /// Hands the root the identifier the gateway returned for the session
    /// ledger: it joins both participants' indexes — mirrored, never
    /// duplicated — and the directive tells the driver to deliver the
    /// session's bootstrap start message.
    pub fn register_session(&mut self, pid: ProcessId) -> (d: Directive)
        requires
            old(self)@.wf(),
            old(self)@.opening,
        ensures
            final(self)@.wf(),
            final(self)@ == (RootView {
                opening: false,
                first_index: spec_index_insert(old(self)@.first_index, pid),
                second_index: spec_index_insert(old(self)@.second_index, pid),
                ..old(self)@
            }),
            d@ == DirectiveView::SendStart(pid),
    {
        if !contains_pid(&self.first_index, pid) {
            self.first_index.push(pid);
        }
        if !contains_pid(&self.second_index, pid) {
            self.second_index.push(pid);
        }
        self.opening = false;
        proof {
            assert(self@ =~= RootView {
                opening: false,
                first_index: spec_index_insert(old(self)@.first_index, pid),
                second_index: spec_index_insert(old(self)@.second_index, pid),
                ..old(self)@
            });
        }
        Directive::SendStart(pid)
    }

    /// The recorded participants, if a session was ever started.
    pub fn owners(&self) -> (o: Option<(Owner, Owner)>)
        ensures
            o == self@.owners,
    {
        self.owners
    }

    /// The session index a participant may consult, or nothing for an
    /// identity that is not one of the two participants.
    pub fn sessions_for(&self, owner: Owner) -> (r: Option<&Vec<ProcessId>>)
        ensures
            (match r {
                Some(v) => Some(v@),
                None => None,
            }) == spec_sessions_for(self@, owner),
    {
        match self.owners {
            Some(p) => if p.0 == owner {
                Some(&self.first_index)
            } else if p.1 == owner {
                Some(&self.second_index)
            } else {
                None
            },
            None => None,
        }
    }
}

/// Whether the identifier already stands in the index.
fn contains_pid(v: &Vec<ProcessId>, pid: ProcessId) -> (r: bool)
    ensures
        r == v@.contains(pid),
{
    let mut i: usize = 0;
    while i < v.len()
        invariant
            i <= v.len(),
            forall|j: int| 0 <= j < i ==> v@[j] != pid,
        decreases v.len() - i,
    {
        if v[i] == pid {
            assert(v@.contains(pid));
            return true;
        }
        i += 1;
    }
    false
}

/// What the session oracle reported for a transition on a session ledger.
#[derive(Clone, Debug)]
pub enum SessionOutcome {
    /// The proof checked: the session's new state.
    Applied(ProcessState),
    /// The proof did not check; the caller may resubmit a different one.
    InvalidProof,
    /// The stored state was corrupt; the ledger has diverged. Fatal.
    MalformedState,
}

/// The mathematical value of a [`SessionOutcome`].
#[verifier::ext_equal]
pub enum SessionOutcomeView {
    Applied(StateView),
    InvalidProof,
    MalformedState,
}

impl View for SessionOutcome {
    type V = SessionOutcomeView;

    open spec fn view(&self) -> SessionOutcomeView {
        match self {
            SessionOutcome::Applied(s) => SessionOutcomeView::Applied(s@),
            SessionOutcome::InvalidProof => SessionOutcomeView::InvalidProof,
            SessionOutcome::MalformedState => SessionOutcomeView::MalformedState,
        }
    }
}

/// The mathematical value of a [`PairedChild`].
#[verifier::ext_equal]
pub struct ChildView {
    pub started: bool,
    pub data: StateView,
}

/// What finishing a session transition does: an accepted step persists the
/// new state; a rejected proof or a corrupt state changes nothing.
pub open spec fn spec_session_step(v: ChildView, o: SessionOutcomeView) -> (Result<
    (),
    ProtocolError,
>, ChildView) {
    match o {
        SessionOutcomeView::Applied(st) => (Ok(()), ChildView { data: st, ..v }),
        SessionOutcomeView::InvalidProof => (Err(ProtocolError::InvalidProof), v),
        SessionOutcomeView::MalformedState => (Err(ProtocolError::MalformedState), v),
    }
}

/// One session ledger of the paired variant. It is bootstrapped once, by
/// the start message the root sent when opening it, and thereafter advances
/// only through proof-checked transitions. Session ledgers never spawn and
/// never exchange messages, so no pending-action bookkeeping exists here.
#[derive(Debug)]
pub struct PairedChild {
    started: bool,
    data: ProcessState,
}

impl View for PairedChild {
    type V = ChildView;

    closed spec fn view(&self) -> ChildView {
        ChildView { started: self.started, data: self.data@ }
    }
}

impl PairedChild {
    /// A session ledger that has not received its bootstrap message yet.
    pub fn new() -> (c: PairedChild)
        ensures
            c@ == (ChildView { started: false, data: ProcessState::spec_empty() }),
    {
        let c = PairedChild { started: false, data: ProcessState::default() };
        proof {
            assert(c@ =~= ChildView { started: false, data: ProcessState::spec_empty() });
        }
        c
    }

    /// Takes the bootstrap start message: the driver has read the initial
    /// state blob and asked the oracle for its start transform; the
    /// resulting first state is persisted.
    pub fn bootstrap(&mut self, st: ProcessState)
        requires
            !old(self)@.started,
        ensures
            final(self)@ == (ChildView { started: true, data: st@ }),
    {
        self.started = true;
        self.data = st;
        proof {
            assert(self@ =~= ChildView { started: true, data: self.data@ });
        }
    }

    /// Finishes a session transition with the oracle's outcome: an
    /// accepted step persists the new state; a rejection is reported with
    /// the state exactly as it was.
    pub fn finish_transition(&mut self, outcome: SessionOutcome) -> (r: Result<(), ProtocolError>)
        requires
            old(self)@.started,
        ensures
            final(self)@.started,
            (r, final(self)@) == spec_session_step(old(self)@, outcome@),
    {
        match outcome {
            SessionOutcome::Applied(st) => {
                self.data = st;
                proof {
                    assert(self@ =~= spec_session_step(
                        old(self)@,
                        SessionOutcomeView::Applied(self.data@),
                    ).1);
                }
                Ok(())
            },
            SessionOutcome::InvalidProof => Err(ProtocolError::InvalidProof),
            SessionOutcome::MalformedState => Err(ProtocolError::MalformedState),
        }
    }

    /// Whether the bootstrap message has arrived.
    pub fn is_started(&self) -> (b: bool)
        ensures
            b == self@.started,
    {
        self.started
    }

    /// The session's current state.
    pub fn state(&self) -> (s: &ProcessState)
        ensures
            s@ == self@.data,
    {
        &self.data
    }
}

/// The mirroring law: after any session registration on a well-formed
/// root, the two participants' indexes are identical, and registering an
/// identifier a second time changes neither.
pub proof fn lemma_session_indexes_mirrored(v: RootView, pid: ProcessId)
    requires
        v.wf(),
    ensures
        spec_index_insert(v.first_index, pid) == spec_index_insert(v.second_index, pid),
        v.first_index.contains(pid) ==> spec_index_insert(v.first_index, pid) == v.first_index,
{
}

} // verus!

//! The transition coordinator: the per-process state machine that
//! sequences pre-action validation, the opaque program step, and
//! post-action dispatch.
//!
//! The program-step oracle and the chain-lifecycle gateway are outside
//! collaborators. A driver carries each transition through its phases:
//! it submits the action, asks the oracle what pre-action the proof
//! declares, hands that in for validation, asks the oracle to apply the
//! step, hands the outcome in, and finally performs whatever directive
//! comes back (open a ledger, deliver a message). Every decision, and every
//! durable mutation, happens here.
//!
//! A declared pre-action is validated when it is handed in and consumed
//! only once the step is accepted, so a rejected proof — and any fatal
//! divergence found on the way — leaves the process exactly as it was.

use vstd::pervasive::unreached;
use vstd::prelude::*;

use crate::actions::{
    ChainOwnership, Directive, DirectiveView, PostAction, PostActionView, PreAction, PreActionView,
    StepOutcome, StepOutcomeView,
};
use crate::errors::ProtocolError;
use crate::ids::{Owner, ProcessId};
use crate::ledger::{
    spec_clear_spawn, spec_dequeue, spec_enqueue, spec_record_spawn, LedgerView, PendingLedger,
};
use crate::state::{ProcessState, StateView};

verus! {

/// Where a process stands in handling one action.
#[derive(Clone, Copy, Debug, PartialEq, Eq, Structural)]
pub enum Status {
    /// No action is in flight.
    Idle,
    /// A transition was submitted; the oracle's declared pre-action is
    /// awaited and will be validated against the pending-action ledger.
    AwaitingPreAction,
    /// The pre-action checks passed (or a start's blob was found); the
    /// oracle's step outcome is awaited.
    Applying,
    /// The step declared a spawn; the gateway's new process identifier is
    /// awaited.
    AwaitingPostAction,
}

/// The mathematical value of a [`Coordinator`].
#[verifier::ext_equal]
pub struct CoordView {
    pub status: Status,
    /// The in-flight action is a start rather than a transition.
    pub starting: bool,
    /// The validated pre-action, consumed when the step is accepted.
    pub staged: PreActionView,
    /// A start has populated the process state.
    pub started: bool,
    /// The bootstrap start message has arrived on this ledger.
    pub bootstrapped: bool,
    pub owner: Option<Owner>,
    pub data: StateView,
    pub ledger: LedgerView,
    pub children: Seq<ProcessId>,
}

/// Whether a declared pre-action holds of the pending-action ledger.
pub open spec fn pre_ok(l: LedgerView, pre: PreActionView) -> bool {
    match pre {
        PreActionView::Nothing => true,
        PreActionView::ConfirmSpawn(pid) => l.pending == Some(pid),
        PreActionView::Receive(m) => l.queue.len() > 0 && l.queue[0] == m,
    }
}

/// How a declared pre-action resolves against the pending-action ledger:
/// accepted, or rejected with the exact error the ledger operation would
/// give.
pub open spec fn pre_check(l: LedgerView, pre: PreActionView) -> Result<(), ProtocolError> {
    match pre {
        PreActionView::Nothing => Ok(()),
        PreActionView::ConfirmSpawn(pid) => match l.pending {
            Some(stored) => if stored == pid {
                Ok(())
            } else {
                Err(ProtocolError::SpawnMismatch)
            },
            None => Err(ProtocolError::SpawnMismatch),
        },
        PreActionView::Receive(m) => if l.queue.len() == 0 {
            Err(ProtocolError::QueueEmpty)
        } else if l.queue[0] == m {
            Ok(())
        } else {
            Err(ProtocolError::MessageMismatch)
        },
    }
}

/// Consuming a validated pre-action: clearing the confirmed spawn, or
/// dequeueing the received message.
pub open spec fn spec_commit_pre(l: LedgerView, pre: PreActionView) -> LedgerView {
    match pre {
        PreActionView::Nothing => l,
        PreActionView::ConfirmSpawn(pid) => spec_clear_spawn(l, pid).1,
        PreActionView::Receive(m) => spec_dequeue(l, m).1,
    }
}

/// The child registry after consuming a pre-action: a confirmed spawn is
/// appended, in confirmation order.
pub open spec fn spec_register_child(ch: Seq<ProcessId>, pre: PreActionView) -> Seq<ProcessId> {
    match pre {
        PreActionView::ConfirmSpawn(pid) => ch.push(pid),
        _ => ch,
    }
}

impl CoordView {
    /// Internal consistency: what each status implies of the rest.
    pub open spec fn wf(self) -> bool {
        &&& self.starting ==> self.status is Applying
        &&& self.status is AwaitingPreAction ==> self.started && !self.starting
        &&& self.status is Applying && !self.starting ==> self.started && pre_ok(
            self.ledger,
            self.staged,
        )
        &&& !(self.status is Applying && !self.starting) ==> self.staged is Nothing
        &&& self.status is Applying && self.starting ==> self.owner is Some
        &&& self.status is AwaitingPostAction ==> self.started && !self.starting
            && self.ledger.pending is None
        &&& self.started ==> self.owner is Some
    }

    /// The state a process holds before any action: idle, empty, unowned.
    pub open spec fn initial() -> CoordView {
        CoordView {
            status: Status::Idle,
            starting: false,
            staged: PreActionView::Nothing,
            started: false,
            bootstrapped: false,
            owner: None,
            data: ProcessState::spec_empty(),
            ledger: LedgerView { pending: None, queue: Seq::empty() },
            children: Seq::empty(),
        }
    }
}

/// An aborted action: back to idle with nothing else touched.
pub open spec fn spec_abort(c: CoordView) -> CoordView {
    CoordView { status: Status::Idle, starting: false, staged: PreActionView::Nothing, ..c }
}

/// What submitting a start does: rejected outright when the initial state
/// blob was not found; otherwise the owner is recorded and the oracle's
/// start transform is awaited.
pub open spec fn spec_submit_start(c: CoordView, owner: Owner, blob_found: bool) -> (Result<
    (),
    ProtocolError,
>, CoordView) {
    if !blob_found {
        (Err(ProtocolError::BlobNotFound), c)
    } else {
        (
            Ok(()),
            CoordView { status: Status::Applying, starting: true, owner: Some(owner), ..c },
        )
    }
}

/// What submitting a transition does: the machine turns to resolving the
/// proof's declared pre-action.
pub open spec fn spec_submit_transition(c: CoordView) -> CoordView {
    CoordView { status: Status::AwaitingPreAction, ..c }
}

/// What resolving a declared pre-action does: on acceptance it is staged
/// and the step outcome is awaited; on rejection the transition aborts with
/// the process untouched.
pub open spec fn spec_resolve_pre(c: CoordView, pre: PreActionView) -> (Result<
    (),
    ProtocolError,
>, CoordView) {
    match pre_check(c.ledger, pre) {
        Ok(u) => (Ok(u), CoordView { status: Status::Applying, staged: pre, ..c }),
        Err(e) => (Err(e), CoordView { status: Status::Idle, ..c }),
    }
}

/// What finishing a step does. A rejected proof or a corrupt state aborts
/// with the process untouched. An accepted step would consume the staged
/// pre-action; if the new state declares a spawn while another spawn would
/// still be pending, the whole step aborts untouched with
/// `ConflictingSpawn` — the two-phase guard against two unacknowledged
/// spawns. Otherwise the pre-action is consumed, a confirmed child is
/// registered, the new state is persisted, and the post-action turns into
/// the directive the driver must perform: nothing, open a ledger for the
/// child, or deliver a message.
pub open spec fn spec_finish_step(c: CoordView, o: StepOutcomeView) -> (Result<
    DirectiveView,
    ProtocolError,
>, CoordView) {
    match o {
        StepOutcomeView::InvalidProof => (Err(ProtocolError::InvalidProof), spec_abort(c)),
        StepOutcomeView::MalformedState => (Err(ProtocolError::MalformedState), spec_abort(c)),
        StepOutcomeView::Applied(st, post) => {
            let l1 = spec_commit_pre(c.ledger, c.staged);
            if post is Spawn && l1.pending is Some {
                (Err(ProtocolError::ConflictingSpawn), spec_abort(c))
            } else {
                let c1 = CoordView {
                    starting: false,
                    staged: PreActionView::Nothing,
                    started: true,
                    data: st,
                    ledger: l1,
                    children: spec_register_child(c.children, c.staged),
                    ..c
                };
                match post {
                    PostActionView::Nothing => (
                        Ok(DirectiveView::Nothing),
                        CoordView { status: Status::Idle, ..c1 },
                    ),
                    PostActionView::Spawn => (
                        Ok(
                            DirectiveView::OpenChain(
                                ChainOwnership::SingleSuper { owner: c.owner->Some_0 },
                            ),
                        ),
                        CoordView { status: Status::AwaitingPostAction, ..c1 },
                    ),
                    PostActionView::Send(target, payload) => (
                        Ok(DirectiveView::Send(target, payload)),
                        CoordView { status: Status::Idle, ..c1 },
                    ),
                }
            }
        },
    }
}

/// What confirming an opened ledger does: the new child's identifier fills
/// the pending-spawn slot and its bootstrap message goes out.
pub open spec fn spec_confirm_spawn(c: CoordView, pid: ProcessId) -> (DirectiveView, CoordView) {
    (
        DirectiveView::SendStart(pid),
        CoordView { status: Status::Idle, ledger: spec_record_spawn(c.ledger, pid).1, ..c },
    )
}

/// What an inbound message delivery does: the payload joins the queue's
/// tail, whatever else is in flight.
pub open spec fn spec_receive(c: CoordView, payload: Seq<u8>) -> CoordView {
    CoordView { ledger: spec_enqueue(c.ledger, payload), ..c }
}

/// A directive result, by mathematical value.
pub open spec fn directive_result_view(r: Result<Directive, ProtocolError>) -> Result<
    DirectiveView,
    ProtocolError,
> {
    match r {
        Ok(d) => Ok(d@),
        Err(e) => Err(e),
    }
}

/// The transition coordinator of one process. Executes strictly
/// sequentially: one action at a time, to completion.
#[derive(Debug)]
pub struct Coordinator {
    status: Status,
    starting: bool,
    staged: PreAction,
    started: bool,
    bootstrapped: bool,
    owner: Option<Owner>,
    data: ProcessState,
    ledger: PendingLedger,
    children: Vec<ProcessId>,
}

impl View for Coordinator {
    type V = CoordView;

    closed spec fn view(&self) -> CoordView {
        CoordView {
            status: self.status,
            starting: self.starting,
            staged: self.staged@,
            started: self.started,
            bootstrapped: self.bootstrapped,
            owner: self.owner,
            data: self.data@,
            ledger: self.ledger@,
            children: self.children@,
        }
    }
}

impl Coordinator {
    /// A process that has never acted: idle, with empty state.
    pub fn new() -> (c: Coordinator)
        ensures
            c@ == CoordView::initial(),
            c@.wf(),
    {
        let c = Coordinator {
            status: Status::Idle,
            starting: false,
            staged: PreAction::Nothing,
            started: false,
            bootstrapped: false,
            owner: None,
            data: ProcessState::default(),
            ledger: PendingLedger::new(),
            children: Vec::new(),
        };
        proof {
            assert(c@ =~= CoordView::initial());
        }
        c
    }

    /// Submits a start action. The driver has already asked the gateway for
    /// the initial state blob; absence is rejected with `BlobNotFound` and
    /// nothing changes. Otherwise the initiator is recorded as owner and
    /// the driver must ask the oracle for the start transform of the blob,
    /// then hand the result to [`Coordinator::finish_start`].
    pub fn submit_start(&mut self, owner: Owner, blob: &Option<Vec<u8>>) -> (r: Result<
        (),
        ProtocolError,
    >)
        requires
            old(self)@.wf(),
            old(self)@.status is Idle,
        ensures
            final(self)@.wf(),
            (r, final(self)@) == spec_submit_start(old(self)@, owner, blob is Some),
    {
        match blob {
            None => Err(ProtocolError::BlobNotFound),
            Some(_) => {
                self.status = Status::Applying;
                self.starting = true;
                self.owner = Some(owner);
                proof {
                    assert(self@ =~= spec_submit_start(old(self)@, owner, true).1);
                }
                Ok(())
            },
        }
    }

    /// Finishes a start action with the oracle's result: the first process
    /// state and the post-action it declares. Succeeds unless the declared
    /// post-action is a spawn while an earlier spawn is still pending.
    pub fn finish_start(&mut self, new_state: ProcessState, post: PostAction) -> (r: Result<
        Directive,
        ProtocolError,
    >)
        requires
            old(self)@.wf(),
            old(self)@.status is Applying,
            old(self)@.starting,
        ensures
            final(self)@.wf(),
            (directive_result_view(r), final(self)@) == spec_finish_step(
                old(self)@,
                StepOutcomeView::Applied(new_state@, post@),
            ),
    {
        self.apply_accepted_step(new_state, post)
    }

    /// Submits a transition action, valid only when no action is in
    /// flight. The driver must then ask the oracle what pre-action the
    /// submitted proof declares and hand it to
    /// [`Coordinator::resolve_pre_action`].
    pub fn submit_transition(&mut self)
        requires
            old(self)@.wf(),
            old(self)@.status is Idle,
            old(self)@.started,
        ensures
            final(self)@.wf(),
            final(self)@ == spec_submit_transition(old(self)@),
    {
        self.status = Status::AwaitingPreAction;
        proof {
            assert(self@ =~= spec_submit_transition(old(self)@));
        }
    }

    /// Validates the proof's declared pre-action against the
    /// pending-action ledger. A mismatch with the recorded pending spawn or
    /// the queue's head is fatal, an empty queue recoverable; either way
    /// the rejection aborts the transition and the process is exactly as it
    /// was. On acceptance the pre-action is staged — it is consumed only
    /// when the step is accepted — and the driver must ask the oracle to
    /// apply the step, then hand the outcome to
    /// [`Coordinator::finish_transition`].
    pub fn resolve_pre_action(&mut self, pre: PreAction) -> (r: Result<(), ProtocolError>)
        requires
            old(self)@.wf(),
            old(self)@.status is AwaitingPreAction,
        ensures
            final(self)@.wf(),
            (r, final(self)@) == spec_resolve_pre(old(self)@, pre@),
    {
        let check: Result<(), ProtocolError> = match &pre {
            PreAction::Nothing => Ok(()),
            PreAction::ConfirmSpawn(pid) => match self.ledger.pending_spawn() {
                Some(stored) => if stored == *pid {
                    Ok(())
                } else {
                    Err(ProtocolError::SpawnMismatch)
                },
                None => Err(ProtocolError::SpawnMismatch),
            },
            PreAction::Receive(m) => self.ledger.check_front(m),
        };
        match check {
            Ok(_) => {
                self.status = Status::Applying;
                self.staged = pre;
                proof {
                    assert(self@ =~= spec_resolve_pre(old(self)@, self.staged@).1);
                }
                Ok(())
            },
            Err(e) => {
                self.status = Status::Idle;
                proof {
                    assert(self@ =~= spec_resolve_pre(old(self)@, pre@).1);
                }
                Err(e)
            },
        }
    }

    /// Finishes a transition with the oracle's outcome. A rejected proof is
    /// reported as `InvalidProof` and a corrupt state as `MalformedState`,
    /// both leaving the process exactly as it was. On an accepted step the
    /// staged pre-action is consumed, a confirmed child joins the registry,
    /// the new state is persisted, and the declared post-action becomes the
    /// returned directive.
    pub fn finish_transition(&mut self, outcome: StepOutcome) -> (r: Result<
        Directive,
        ProtocolError,
    >)
        requires
            old(self)@.wf(),
            old(self)@.status is Applying,
            !old(self)@.starting,
        ensures
            final(self)@.wf(),
            (directive_result_view(r), final(self)@) == spec_finish_step(old(self)@, outcome@),
    {
        match outcome {
            StepOutcome::InvalidProof => {
                self.abort_in_flight();
                Err(ProtocolError::InvalidProof)
            },
            StepOutcome::MalformedState => {
                self.abort_in_flight();
                Err(ProtocolError::MalformedState)
            },
            StepOutcome::Applied(st, post) => self.apply_accepted_step(st, post),
        }
    }

    /// Hands the coordinator the process identifier the gateway returned
    /// for the requested ledger: it becomes the pending spawn, to be
    /// confirmed by the next transition's pre-action, and the directive
    /// tells the driver to deliver the child's bootstrap start message.
    pub fn confirm_spawn_opened(&mut self, pid: ProcessId) -> (d: Directive)
        requires
            old(self)@.wf(),
            old(self)@.status is AwaitingPostAction,
        ensures
            final(self)@.wf(),
            (d@, final(self)@) == spec_confirm_spawn(old(self)@, pid),
    {
        let recorded = self.ledger.record_spawn(pid);
        self.status = Status::Idle;
        proof {
            assert(recorded is Ok);
            assert(self@ =~= spec_confirm_spawn(old(self)@, pid).1);
        }
        Directive::SendStart(pid)
    }

    /// Takes delivery of an inbound message: the payload joins the tail of
    /// the queue, unconditionally, to satisfy a later receive pre-action.
    pub fn receive_message(&mut self, payload: Vec<u8>)
        requires
            old(self)@.wf(),
        ensures
            final(self)@.wf(),
            final(self)@ == spec_receive(old(self)@, payload@),
    {
        self.ledger.enqueue_message(payload);
        proof {
            assert(self@ =~= spec_receive(old(self)@, payload@));
        }
    }

    /// Takes delivery of the bootstrap start message that the parent sent
    /// when this process's ledger was opened.
    pub fn receive_start_message(&mut self)
        requires
            old(self)@.wf(),
        ensures
            final(self)@.wf(),
            final(self)@ == (CoordView { bootstrapped: true, ..old(self)@ }),
    {
        self.bootstrapped = true;
        proof {
            assert(self@ =~= CoordView { bootstrapped: true, ..old(self)@ });
        }
    }

    /// The current process state.
    pub fn state(&self) -> (s: &ProcessState)
        ensures
            s@ == self@.data,
    {
        &self.data
    }

    /// The pending spawn, if any.
    pub fn pending_spawn(&self) -> (p: Option<ProcessId>)
        ensures
            p == self@.ledger.pending,
    {
        self.ledger.pending_spawn()
    }

    /// Every child ever confirmed, in confirmation order.
    pub fn children(&self) -> (ch: &Vec<ProcessId>)
        ensures
            ch@ == self@.children,
    {
        &self.children
    }

    /// How many inbound messages await consumption.
    pub fn queue_len(&self) -> (n: usize)
        ensures
            n == self@.ledger.queue.len(),
    {
        self.ledger.queue_len()
    }

    /// Where the process stands in handling an action.
    pub fn status(&self) -> (s: Status)
        ensures
            s == self@.status,
    {
        self.status
    }

    /// Whether a start has populated the process state.
    pub fn is_started(&self) -> (b: bool)
        ensures
            b == self@.started,
    {
        self.started
    }

    /// Whether the bootstrap start message has arrived.
    pub fn is_bootstrapped(&self) -> (b: bool)
        ensures
            b == self@.bootstrapped,
    {
        self.bootstrapped
    }

    /// The recorded owner, if a start has set one.
    pub fn owner(&self) -> (o: Option<Owner>)
        ensures
            o == self@.owner,
    {
        self.owner
    }

    /// Aborts the in-flight action, touching nothing else.
    fn abort_in_flight(&mut self)
        ensures
            final(self)@ == spec_abort(old(self)@),
    {
        self.status = Status::Idle;
        self.starting = false;
        self.staged = PreAction::Nothing;
        proof {
            assert(self@ =~= spec_abort(old(self)@));
        }
    }

    /// The accepted-step path shared by start and transition: conflict
    /// guard, pre-action consumption, persistence, post-action dispatch.
    fn apply_accepted_step(&mut self, st: ProcessState, post: PostAction) -> (r: Result<
        Directive,
        ProtocolError,
    >)
        requires
            old(self)@.wf(),
            old(self)@.status is Applying,
        ensures
            final(self)@.wf(),
            (directive_result_view(r), final(self)@) == spec_finish_step(
                old(self)@,
                StepOutcomeView::Applied(st@, post@),
            ),
    {
        let is_spawn = match &post {
            PostAction::Spawn => true,
            _ => false,
        };
        let pending_after: Option<ProcessId> = match &self.staged {
            PreAction::ConfirmSpawn(_) => None,
            _ => self.ledger.pending_spawn(),
        };
        if is_spawn && pending_after.is_some() {
            self.abort_in_flight();
            return Err(ProtocolError::ConflictingSpawn);
        }
        match &self.staged {
            PreAction::Nothing => {},
            PreAction::ConfirmSpawn(pid) => {
                let pid = *pid;
                let cleared = self.ledger.clear_spawn(pid);
                proof {
                    assert(cleared is Ok);
                }
                self.children.push(pid);
            },
            PreAction::Receive(m) => {
                let dequeued = self.ledger.dequeue_expected(m);
                proof {
                    assert(dequeued is Ok);
                }
            },
        }
        self.staged = PreAction::Nothing;
        self.data = st;
        self.started = true;
        self.starting = false;
        match post {
            PostAction::Nothing => {
                self.status = Status::Idle;
                proof {
                    assert(self@ =~= spec_finish_step(
                        old(self)@,
                        StepOutcomeView::Applied(self.data@, PostActionView::Nothing),
                    ).1);
                }
                Ok(Directive::Nothing)
            },
            PostAction::Spawn => {
                let owner = match self.owner {
                    Some(o) => o,
                    None => unreached(),
                };
                self.status = Status::AwaitingPostAction;
                proof {
                    assert(self@ =~= spec_finish_step(
                        old(self)@,
                        StepOutcomeView::Applied(self.data@, PostActionView::Spawn),
                    ).1);
                }
                Ok(Directive::OpenChain(ChainOwnership::single_super(owner)))
            },
            PostAction::Send(target, payload) => {
                self.status = Status::Idle;
                proof {
                    assert(self@ =~= spec_finish_step(
                        old(self)@,
                        StepOutcomeView::Applied(self.data@, PostActionView::Send(target, payload@)),
                    ).1);
                }
                Ok(Directive::Send(target, payload))
            },
        }
    }
}

/// A rejected pre-action aborts atomically: whatever the declared
/// pre-action, if resolving it fails, the process state, the
/// pending-action ledger and the child registry are exactly as before the
/// attempted transition.
pub proof fn lemma_pre_action_abort_atomic(c: CoordView, pre: PreActionView)
    ensures
        spec_resolve_pre(c, pre).0 is Err ==> {
            let c1 = spec_resolve_pre(c, pre).1;
            &&& c1.data == c.data
            &&& c1.ledger == c.ledger
            &&& c1.children == c.children
        },
{
}

/// A rejected or conflicting step outcome aborts atomically: if finishing
/// the step fails — a rejected proof, a corrupt state, or a spawn declared
/// while another is pending — the process state, the pending-action ledger
/// and the child registry are exactly as before.
pub proof fn lemma_failed_step_abort_atomic(c: CoordView, o: StepOutcomeView)
    ensures
        spec_finish_step(c, o).0 is Err ==> {
            let c1 = spec_finish_step(c, o).1;
            &&& c1.data == c.data
            &&& c1.ledger == c.ledger
            &&& c1.children == c.children
        },
{
}

/// The two-phase spawn guard: an accepted step whose post-action is a
/// spawn leaves the machine awaiting the new ledger with the spawn slot
/// free; and if a spawn would still be pending after the step's own
/// pre-action, the step is refused with `ConflictingSpawn`.
pub proof fn lemma_at_most_one_inflight_spawn(c: CoordView, st: StateView)
    requires
        c.wf(),
        c.status is Applying,
    ensures
        ({
            let (r, c1) = spec_finish_step(c, StepOutcomeView::Applied(st, PostActionView::Spawn));
            &&& r is Ok ==> c1.status is AwaitingPostAction && c1.ledger.pending is None
            &&& spec_commit_pre(c.ledger, c.staged).pending is Some ==> r
                == Err::<DirectiveView, ProtocolError>(ProtocolError::ConflictingSpawn)
        }),
{
}

/// The confirm-spawn round trip, seen from the coordinator: once the
/// gateway's identifier is recorded, a transition whose pre-action
/// confirms exactly that identifier passes validation, and one confirming
/// any other identifier is refused with `SpawnMismatch`.
pub proof fn lemma_confirm_spawn_round_trip(c: CoordView, pid: ProcessId, other: ProcessId)
    requires
        c.wf(),
        c.status is AwaitingPostAction,
    ensures
        ({
            let c1 = spec_confirm_spawn(c, pid).1;
            &&& pre_check(c1.ledger, PreActionView::ConfirmSpawn(pid)) is Ok
            &&& other != pid ==> pre_check(c1.ledger, PreActionView::ConfirmSpawn(other))
                == Err::<(), ProtocolError>(ProtocolError::SpawnMismatch)
        }),
{
}

/// A send post-action is non-blocking: an accepted step that declares
/// `Send(target, payload)` completes the transition — the directive goes
/// out and the machine returns to idle in the same step, depending on no
/// reply from the target.
pub proof fn lemma_send_is_non_blocking(
    c: CoordView,
    st: StateView,
    target: ProcessId,
    payload: Seq<u8>,
)
    requires
        c.wf(),
        c.status is Applying,
    ensures
        ({
            let (r, c1) = spec_finish_step(
                c,
                StepOutcomeView::Applied(st, PostActionView::Send(target, payload)),
            );
            &&& r == Ok::<DirectiveView, ProtocolError>(DirectiveView::Send(target, payload))
            &&& c1.status is Idle
        }),
{
}

} // verus!

//! The pending-action ledger: a single-slot record of an in-flight spawn
//! awaiting confirmation, and a FIFO queue of inbound messages awaiting
//! consumption.

use vstd::prelude::*;

use crate::errors::ProtocolError;
use crate::ids::ProcessId;

verus! {

/// The mathematical value of a [`PendingLedger`].
#[verifier::ext_equal]
pub struct LedgerView {
    /// The child whose creation was requested but not yet confirmed, if any.
    pub pending: Option<ProcessId>,
    /// The inbound message payloads, head first.
    pub queue: Seq<Seq<u8>>,
}

/// What `record_spawn` does: stores the identifier in the empty slot, or
/// fails with `ConflictingSpawn` and changes nothing if the slot is full.
pub open spec fn spec_record_spawn(l: LedgerView, id: ProcessId) -> (Result<
    (),
    ProtocolError,
>, LedgerView) {
    if l.pending is Some {
        (Err(ProtocolError::ConflictingSpawn), l)
    } else {
        (Ok(()), LedgerView { pending: Some(id), ..l })
    }
}

/// What `clear_spawn` does: clears the slot and returns the stored
/// identifier if it equals the expected one; fails with `SpawnMismatch` and
/// changes nothing if the slot is empty or holds a different identifier.
pub open spec fn spec_clear_spawn(l: LedgerView, expected: ProcessId) -> (Result<
    ProcessId,
    ProtocolError,
>, LedgerView) {
    match l.pending {
        Some(stored) => if stored == expected {
            (Ok(stored), LedgerView { pending: None, ..l })
        } else {
            (Err(ProtocolError::SpawnMismatch), l)
        },
        None => (Err(ProtocolError::SpawnMismatch), l),
    }
}

/// What `enqueue_message` does: appends the payload at the tail,
/// unconditionally.
pub open spec fn spec_enqueue(l: LedgerView, payload: Seq<u8>) -> LedgerView {
    LedgerView { queue: l.queue.push(payload), ..l }
}

/// What `dequeue_expected` does: removes and returns the head if it equals
/// the expected payload; fails with `QueueEmpty` on an empty queue and with
/// `MessageMismatch` on a differing head, changing nothing either way.
pub open spec fn spec_dequeue(l: LedgerView, expected: Seq<u8>) -> (Result<
    Seq<u8>,
    ProtocolError,
>, LedgerView) {
    if l.queue.len() == 0 {
        (Err(ProtocolError::QueueEmpty), l)
    } else if l.queue[0] == expected {
        (Ok(l.queue[0]), LedgerView { queue: l.queue.drop_first(), ..l })
    } else {
        (Err(ProtocolError::MessageMismatch), l)
    }
}

/// Durable single-slot record of an in-flight spawn, plus the FIFO queue of
/// inbound messages. Messages are appended only at the tail and consumed
/// only from the head; the queue never loses or reorders entries.
#[derive(Clone, Debug)]
pub struct PendingLedger {
    pending: Option<ProcessId>,
    queue: Vec<Vec<u8>>,
}

impl View for PendingLedger {
    type V = LedgerView;

    closed spec fn view(&self) -> LedgerView {
        LedgerView {
            pending: self.pending,
            queue: Seq::new(self.queue@.len(), |i: int| self.queue@[i]@),
        }
    }
}

impl Default for PendingLedger {
    fn default() -> (l: PendingLedger)
        ensures
            l@.pending is None,
            l@.queue == Seq::<Seq<u8>>::empty(),
    {
        let l = PendingLedger { pending: None, queue: Vec::new() };
        proof {
            assert(l@.queue =~= Seq::<Seq<u8>>::empty());
        }
        l
    }
}

impl PendingLedger {
    pub fn new() -> (l: PendingLedger)
        ensures
            l@.pending is None,
            l@.queue == Seq::<Seq<u8>>::empty(),
    {
        PendingLedger::default()
    }

    /// Records a requested spawn in the single slot. A second record before
    /// the first is cleared fails fast with `ConflictingSpawn`.
    pub fn record_spawn(&mut self, id: ProcessId) -> (r: Result<(), ProtocolError>)
        ensures
            (r, final(self)@) == spec_record_spawn(old(self)@, id),
    {
        match self.pending {
            Some(_) => Err(ProtocolError::ConflictingSpawn),
            None => {
                self.pending = Some(id);
                proof {
                    assert(self@ =~= spec_record_spawn(old(self)@, id).1);
                }
                Ok(())
            },
        }
    }

    /// Clears the pending spawn, checking it against the identifier the
    /// submitted proof claims to confirm. A mismatch is fatal to the
    /// transition: the proof and this ledger have diverged.
    pub fn clear_spawn(&mut self, expected: ProcessId) -> (r: Result<ProcessId, ProtocolError>)
        ensures
            (r, final(self)@) == spec_clear_spawn(old(self)@, expected),
    {
        match self.pending {
            Some(stored) => {
                if stored == expected {
                    self.pending = None;
                    proof {
                        assert(self@ =~= spec_clear_spawn(old(self)@, expected).1);
                    }
                    Ok(stored)
                } else {
                    Err(ProtocolError::SpawnMismatch)
                }
            },
            None => Err(ProtocolError::SpawnMismatch),
        }
    }

    /// Appends an inbound message payload at the tail, unconditionally.
    pub fn enqueue_message(&mut self, payload: Vec<u8>)
        ensures
            final(self)@ == spec_enqueue(old(self)@, payload@),
    {
        self.queue.push(payload);
        proof {
            assert(self@ =~= spec_enqueue(old(self)@, payload@));
        }
    }

    /// Removes and returns the head of the queue, checking it against the
    /// payload the submitted proof claims to consume. A mismatch is fatal
    /// to the transition; an empty queue is a recoverable rejection.
    pub fn dequeue_expected(&mut self, expected: &Vec<u8>) -> (r: Result<Vec<u8>, ProtocolError>)
        ensures
            r matches Ok(m) ==> (m@, final(self)@) == (
                spec_dequeue(old(self)@, expected@).0->Ok_0,
                spec_dequeue(old(self)@, expected@).1,
            ) && spec_dequeue(old(self)@, expected@).0 is Ok,
            r matches Err(e) ==> Err::<Seq<u8>, _>(e) == spec_dequeue(old(self)@, expected@).0
                && final(self)@ == old(self)@,
    {
        if self.queue.len() == 0 {
            Err(ProtocolError::QueueEmpty)
        } else if bytes_eq(&self.queue[0], expected) {
            let head = self.queue.remove(0);
            proof {
                assert(self@ =~= spec_dequeue(old(self)@, expected@).1);
            }
            Ok(head)
        } else {
            Err(ProtocolError::MessageMismatch)
        }
    }

    /// The pending spawn, if any, for introspection and validation.
    pub fn pending_spawn(&self) -> (r: Option<ProcessId>)
        ensures
            r == self@.pending,
    {
        self.pending
    }

    /// How many inbound messages await consumption.
    pub fn queue_len(&self) -> (n: usize)
        ensures
            n == self@.queue.len(),
    {
        self.queue.len()
    }

    /// Whether the queue's head equals the expected payload, reported with
    /// the same distinctions as `dequeue_expected`, but without consuming.
    pub fn check_front(&self, expected: &Vec<u8>) -> (r: Result<(), ProtocolError>)
        ensures
            r is Ok <==> self@.queue.len() > 0 && self@.queue[0] == expected@,
            r is Err ==> r->Err_0 == spec_dequeue(self@, expected@).0->Err_0
                && spec_dequeue(self@, expected@).0 is Err,
    {
        if self.queue.len() == 0 {
            Err(ProtocolError::QueueEmpty)
        } else if bytes_eq(&self.queue[0], expected) {
            Ok(())
        } else {
            Err(ProtocolError::MessageMismatch)
        }
    }
}

/// Byte-for-byte equality of two payloads.
fn bytes_eq(a: &Vec<u8>, b: &Vec<u8>) -> (r: bool)
    ensures
        r == (a@ == b@),
{
    if a.len() != b.len() {
        return false;
    }
    let mut i: usize = 0;
    while i < a.len()
        invariant
            i <= a.len(),
            a.len() == b.len(),
            forall|j: int| 0 <= j < i ==> a@[j] == b@[j],
        decreases a.len() - i,
    {
        if a[i] != b[i] {
            return false;
        }
        i += 1;
    }
    proof {
        assert(a@ =~= b@);
    }
    true
}

/// At most one spawn is ever pending: once a spawn is recorded, recording
/// another — any other — fails with `ConflictingSpawn` and leaves the
/// ledger unchanged, until the first is cleared.
pub proof fn lemma_at_most_one_pending_spawn(l: LedgerView, a: ProcessId, b: ProcessId)
    requires
        spec_record_spawn(l, a).0 is Ok,
    ensures
        spec_record_spawn(spec_record_spawn(l, a).1, b).0 == Err::<(), ProtocolError>(
            ProtocolError::ConflictingSpawn,
        ),
        spec_record_spawn(spec_record_spawn(l, a).1, b).1 == spec_record_spawn(l, a).1,
{
}

/// Messages come out in strict FIFO order: after enqueueing `m1` then `m2`
/// into an empty queue, a dequeue of `x` succeeds exactly when `x == m1`,
/// and after that success the next dequeue succeeds exactly for `m2`.
pub proof fn lemma_fifo_queue(l: LedgerView, m1: Seq<u8>, m2: Seq<u8>, x: Seq<u8>, y: Seq<u8>)
    requires
        l.queue == Seq::<Seq<u8>>::empty(),
    ensures
        ({
            let l2 = spec_enqueue(spec_enqueue(l, m1), m2);
            &&& (spec_dequeue(l2, x).0 is Ok <==> x == m1)
            &&& (x == m1 ==> spec_dequeue(l2, x).0 == Ok::<Seq<u8>, ProtocolError>(m1))
            &&& (x == m1 ==> (spec_dequeue(spec_dequeue(l2, x).1, y).0 is Ok <==> y == m2))
        }),
{
    let l2 = spec_enqueue(spec_enqueue(l, m1), m2);
    assert(l2.queue[0] == m1);
    assert(l2.queue.drop_first() =~= seq![m2]);
}

/// Confirming a recorded spawn round-trips: after `record_spawn(pid)`
/// succeeds, `clear_spawn(pid)` succeeds, returns `pid` and empties the
/// slot, while `clear_spawn(other)` for any `other != pid` fails with
/// `SpawnMismatch` and changes nothing.
pub proof fn lemma_confirm_spawn_round_trip(l: LedgerView, pid: ProcessId, other: ProcessId)
    requires
        spec_record_spawn(l, pid).0 is Ok,
    ensures
        ({
            let l1 = spec_record_spawn(l, pid).1;
            &&& spec_clear_spawn(l1, pid).0 == Ok::<ProcessId, ProtocolError>(pid)
            &&& spec_clear_spawn(l1, pid).1.pending is None
            &&& spec_clear_spawn(l1, pid).1.queue == l.queue
            &&& other != pid ==> spec_clear_spawn(l1, other).0 == Err::<ProcessId, ProtocolError>(
                ProtocolError::SpawnMismatch,
            ) && spec_clear_spawn(l1, other).1 == l1
        }),
{
}

} // verus!

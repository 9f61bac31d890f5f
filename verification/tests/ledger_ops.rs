//! The pending-action ledger: the single spawn slot and the FIFO queue.

use microchain::errors::ProtocolError;
use microchain::ids::{ChainId, CryptoHash, MessageId, ProcessId};
use microchain::ledger::PendingLedger;

fn hash(seed: u64) -> CryptoHash {
    CryptoHash { part1: seed, part2: seed + 1, part3: seed + 2, part4: seed + 3 }
}

fn pid(seed: u64) -> ProcessId {
    ProcessId {
        message_id: MessageId { chain_id: ChainId { hash: hash(seed) }, height: seed, index: 0 },
        chain_id: ChainId { hash: hash(seed + 100) },
    }
}

#[test]
fn record_then_clear_round_trips() {
    let mut l = PendingLedger::new();
    assert_eq!(l.pending_spawn(), None);
    assert_eq!(l.record_spawn(pid(1)), Ok(()));
    assert_eq!(l.pending_spawn(), Some(pid(1)));
    assert_eq!(l.clear_spawn(pid(1)), Ok(pid(1)));
    assert_eq!(l.pending_spawn(), None);
}

#[test]
fn second_record_conflicts() {
    let mut l = PendingLedger::new();
    assert_eq!(l.record_spawn(pid(1)), Ok(()));
    // a second record before clearing always fails, even for the same id
    assert_eq!(l.record_spawn(pid(2)), Err(ProtocolError::ConflictingSpawn));
    assert_eq!(l.record_spawn(pid(1)), Err(ProtocolError::ConflictingSpawn));
    assert_eq!(l.pending_spawn(), Some(pid(1)));
    // after clearing, recording works again
    assert_eq!(l.clear_spawn(pid(1)), Ok(pid(1)));
    assert_eq!(l.record_spawn(pid(2)), Ok(()));
}

#[test]
fn clear_of_wrong_or_absent_spawn_mismatches() {
    let mut l = PendingLedger::new();
    assert_eq!(l.clear_spawn(pid(1)), Err(ProtocolError::SpawnMismatch));
    assert_eq!(l.record_spawn(pid(1)), Ok(()));
    assert_eq!(l.clear_spawn(pid(2)), Err(ProtocolError::SpawnMismatch));
    // the failed clear left the slot untouched
    assert_eq!(l.pending_spawn(), Some(pid(1)));
}

#[test]
fn queue_is_fifo() {
    let mut l = PendingLedger::new();
    l.enqueue_message(vec![1, 2, 3]);
    l.enqueue_message(vec![4, 5]);
    l.enqueue_message(vec![6]);
    assert_eq!(l.queue_len(), 3);
    assert_eq!(l.dequeue_expected(&vec![1, 2, 3]), Ok(vec![1, 2, 3]));
    assert_eq!(l.dequeue_expected(&vec![4, 5]), Ok(vec![4, 5]));
    assert_eq!(l.dequeue_expected(&vec![6]), Ok(vec![6]));
    assert_eq!(l.queue_len(), 0);
}

#[test]
fn dequeue_succeeds_only_for_the_head() {
    let mut l = PendingLedger::new();
    l.enqueue_message(vec![10]);
    l.enqueue_message(vec![20]);
    // the second message cannot jump the queue
    assert_eq!(l.dequeue_expected(&vec![20]), Err(ProtocolError::MessageMismatch));
    assert_eq!(l.queue_len(), 2);
    assert_eq!(l.dequeue_expected(&vec![10]), Ok(vec![10]));
    // now the second is the head
    assert_eq!(l.dequeue_expected(&vec![20]), Ok(vec![20]));
}

#[test]
fn dequeue_of_empty_queue_reports_empty() {
    let mut l = PendingLedger::new();
    assert_eq!(l.dequeue_expected(&vec![1]), Err(ProtocolError::QueueEmpty));
    l.enqueue_message(vec![1]);
    assert_eq!(l.dequeue_expected(&vec![1]), Ok(vec![1]));
    assert_eq!(l.dequeue_expected(&vec![1]), Err(ProtocolError::QueueEmpty));
}

#[test]
fn check_front_reports_without_consuming() {
    let mut l = PendingLedger::new();
    assert_eq!(l.check_front(&vec![1]), Err(ProtocolError::QueueEmpty));
    l.enqueue_message(vec![1]);
    assert_eq!(l.check_front(&vec![2]), Err(ProtocolError::MessageMismatch));
    assert_eq!(l.check_front(&vec![1]), Ok(()));
    assert_eq!(l.queue_len(), 1);
}

#[test]
fn payloads_differ_byte_for_byte() {
    let mut l = PendingLedger::new();
    l.enqueue_message(vec![1, 2]);
    assert_eq!(l.dequeue_expected(&vec![1, 2, 3]), Err(ProtocolError::MessageMismatch));
    assert_eq!(l.dequeue_expected(&vec![1, 3]), Err(ProtocolError::MessageMismatch));
    assert_eq!(l.dequeue_expected(&vec![1, 2]), Ok(vec![1, 2]));
}

#[test]
fn fatal_and_recoverable_errors_are_told_apart() {
    assert!(ProtocolError::ConflictingSpawn.is_fatal());
    assert!(ProtocolError::SpawnMismatch.is_fatal());
    assert!(ProtocolError::MessageMismatch.is_fatal());
    assert!(ProtocolError::MalformedState.is_fatal());
    assert!(!ProtocolError::QueueEmpty.is_fatal());
    assert!(!ProtocolError::InvalidProof.is_fatal());
    assert!(!ProtocolError::BlobNotFound.is_fatal());
}

//! Identifiers and the process-state triple.

use microchain::ids::{ChainId, CryptoHash, MessageId, ProcessId};
use microchain::state::ProcessState;

#[test]
fn hash_is_built_from_its_four_limbs() {
    let h = CryptoHash::from([1, 2, 3, 4]);
    assert_eq!(h, CryptoHash { part1: 1, part2: 2, part3: 3, part4: 4 });
}

#[test]
fn process_ids_compare_by_both_components() {
    let m = MessageId { chain_id: ChainId { hash: CryptoHash::from([1, 2, 3, 4]) }, height: 7, index: 0 };
    let c = ChainId { hash: CryptoHash::from([5, 6, 7, 8]) };
    let p = ProcessId::new(m, c);
    assert_eq!(p, ProcessId { message_id: m, chain_id: c });
    let other = ProcessId::new(m, ChainId { hash: CryptoHash::from([5, 6, 7, 9]) });
    assert_ne!(p, other);
}

#[test]
fn the_empty_state_has_empty_blobs() {
    let s = ProcessState::default();
    assert!(s.proofs.is_empty());
    assert!(s.program.is_empty());
    assert!(s.aux.is_empty());
    assert_eq!(s, ProcessState::new(vec![], vec![], vec![]));
}

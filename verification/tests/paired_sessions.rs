//! The paired variant: the root's session handling with its mirrored
//! per-participant indexes, and the session ledger's transitions.

use microchain::actions::{ChainOwnership, Directive, TimeoutConfig, EQUAL_WEIGHT};
use microchain::errors::ProtocolError;
use microchain::ids::{ChainId, CryptoHash, MessageId, Owner, ProcessId};
use microchain::paired::{PairedChild, PairedRoot, SessionOutcome};
use microchain::state::ProcessState;

fn hash(seed: u64) -> CryptoHash {
    CryptoHash { part1: seed, part2: seed, part3: seed, part4: seed }
}

fn owner(seed: u64) -> Owner {
    Owner { hash: hash(seed) }
}

fn pid(seed: u64) -> ProcessId {
    ProcessId {
        message_id: MessageId { chain_id: ChainId { hash: hash(seed) }, height: 1, index: 0 },
        chain_id: ChainId { hash: hash(seed + 50) },
    }
}

fn state(tag: u8) -> ProcessState {
    ProcessState::new(vec![tag], vec![tag], vec![tag])
}

#[test]
fn session_opens_under_two_of_two_ownership() {
    let mut root = PairedRoot::new();
    let (a, b) = (owner(1), owner(2));
    let timeout = TimeoutConfig { fallback_ms: 60_000 };
    let d = root.begin_session(a, b, timeout);
    match d {
        Directive::OpenChain(ChainOwnership::Shared {
            first,
            second,
            first_weight,
            second_weight,
            quorum,
            timeout: t,
        }) => {
            assert_eq!(first, a);
            assert_eq!(second, b);
            // equal weights, and a quorum neither participant meets alone
            assert_eq!(first_weight, 100);
            assert_eq!(second_weight, 100);
            assert_eq!(quorum, EQUAL_WEIGHT);
            assert_eq!(t, timeout);
        }
        other => panic!("expected an open-chain directive, got {:?}", other),
    }
    assert_eq!(root.owners(), Some((a, b)));
}

#[test]
fn registration_mirrors_the_index_for_both_participants() {
    let mut root = PairedRoot::new();
    let (a, b) = (owner(1), owner(2));
    let timeout = TimeoutConfig { fallback_ms: 0 };
    root.begin_session(a, b, timeout);
    let d = root.register_session(pid(1));
    assert!(matches!(d, Directive::SendStart(p) if p == pid(1)));
    root.begin_session(a, b, timeout);
    root.register_session(pid(2));
    // both participants see the same sessions, in opening order
    assert_eq!(root.sessions_for(a), Some(&vec![pid(1), pid(2)]));
    assert_eq!(root.sessions_for(b), Some(&vec![pid(1), pid(2)]));
    // a stranger sees nothing
    assert_eq!(root.sessions_for(owner(3)), None);
}

#[test]
fn registering_the_same_session_twice_keeps_the_set() {
    let mut root = PairedRoot::new();
    let (a, b) = (owner(1), owner(2));
    let timeout = TimeoutConfig { fallback_ms: 5 };
    root.begin_session(a, b, timeout);
    root.register_session(pid(1));
    root.begin_session(a, b, timeout);
    root.register_session(pid(1));
    assert_eq!(root.sessions_for(a), Some(&vec![pid(1)]));
    assert_eq!(root.sessions_for(b), Some(&vec![pid(1)]));
}

#[test]
fn child_bootstraps_once_and_then_transitions() {
    let mut child = PairedChild::new();
    assert!(!child.is_started());
    child.bootstrap(state(1));
    assert!(child.is_started());
    assert_eq!(child.state(), &state(1));
    assert_eq!(child.finish_transition(SessionOutcome::Applied(state(2))), Ok(()));
    assert_eq!(child.state(), &state(2));
}

#[test]
fn child_rejections_leave_the_state_untouched() {
    let mut child = PairedChild::new();
    child.bootstrap(state(1));
    assert_eq!(
        child.finish_transition(SessionOutcome::InvalidProof),
        Err(ProtocolError::InvalidProof)
    );
    assert_eq!(child.state(), &state(1));
    assert_eq!(
        child.finish_transition(SessionOutcome::MalformedState),
        Err(ProtocolError::MalformedState)
    );
    assert_eq!(child.state(), &state(1));
}

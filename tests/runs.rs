use script_broadcast::broadcaster::{Action, Broadcaster, Event, Phase};
use script_broadcast::chain::ChainProfile;
use script_broadcast::error::BroadcastError;
use script_broadcast::nonce::NonceOffsetTable;
use script_broadcast::sequence::DeploymentSequence;
use script_broadcast::types::{Addr, IntendedTransaction, TypedTransaction};

fn addr(n: u32) -> Addr {
    Addr { hi: 0, mid: 0, lo: n }
}

fn entry(from: Addr, nonce: u64) -> IntendedTransaction {
    IntendedTransaction { from, to: Some(addr(99)), value: None, data: vec![nonce as u8], nonce, gas: None, gas_price: None }
}

fn plan_for_a(nonces: &[u64]) -> DeploymentSequence<u64> {
    DeploymentSequence::new(nonces.iter().map(|n| entry(addr(1), *n)).collect(), "run.json".to_string())
}

fn stamped_nonce(tx: &TypedTransaction) -> Option<u64> {
    match tx {
        TypedTransaction::Legacy(t) => t.nonce,
        TypedTransaction::Eip1559(t) => t.nonce,
    }
}

/// Drives a run where the chain's nonce for every sender starts at
/// `chain_nonce` and advances with each receipt; returns the stamped
/// nonces, the final action, and the run.
fn drive(
    mut b: Broadcaster<u64>,
    mut chain_nonce: u64,
    stop_after: Option<usize>,
) -> (Vec<u64>, Action, Broadcaster<u64>) {
    let mut stamped = vec![];
    let mut event = Event::Proceed;
    loop {
        assert!(b.accepts(&event));
        let action = b.advance(event);
        event = match &action {
            Action::QueryNonce { .. } => Event::NonceObserved(chain_nonce),
            Action::Submit { tx, .. } => {
                stamped.push(stamped_nonce(tx).unwrap());
                chain_nonce += 1;
                Event::Receipt(1000 + stamped.len() as u64)
            }
            Action::Persist => {
                if Some(b.sequence.index) == stop_after {
                    return (stamped, action, b);
                }
                Event::Proceed
            }
            Action::PersistAndFinish | Action::PersistAndAbort(_) => return (stamped, action, b),
        };
    }
}

#[test]
fn strict_run_with_matching_nonces_stamps_plan() {
    let b = Broadcaster::new(plan_for_a(&[5, 6, 7]), vec![addr(1)], ChainProfile { chain_id: 1, legacy: false }, false);
    let (stamped, last, b) = drive(b, 5, None);
    assert_eq!(stamped, vec![5, 6, 7]);
    assert!(matches!(last, Action::PersistAndFinish));
    assert_eq!(b.phase, Phase::Finished);
    assert_eq!(b.sequence.index, 3);
    assert_eq!(b.sequence.receipts, vec![1001, 1002, 1003]);
}

#[test]
fn resume_run_applies_offset_found_on_first_entry() {
    let b = Broadcaster::new(plan_for_a(&[5, 6, 7]), vec![addr(1)], ChainProfile { chain_id: 1, legacy: false }, true);
    let (stamped, last, b) = drive(b, 7, None);
    assert_eq!(stamped, vec![7, 8, 9]);
    assert!(matches!(last, Action::PersistAndFinish));
    assert_eq!(b.sequence.index, 3);
}

#[test]
fn strict_run_aborts_on_mismatch_before_sending() {
    let b = Broadcaster::new(plan_for_a(&[5, 6, 7]), vec![addr(1)], ChainProfile { chain_id: 1, legacy: false }, false);
    let (stamped, last, b) = drive(b, 7, None);
    assert!(stamped.is_empty());
    match last {
        Action::PersistAndAbort(e) => {
            assert_eq!(e, BroadcastError::NonceConflict { sender: addr(1), expected: 5, observed: 7 })
        }
        other => panic!("expected abort, got {:?}", other),
    }
    assert_eq!(b.phase, Phase::Aborted);
    assert_eq!(b.sequence.index, 0);
    assert!(b.sequence.receipts.is_empty());
}

#[test]
fn resumed_sequence_continues_at_cursor() {
    let profile = ChainProfile { chain_id: 1, legacy: false };
    let b = Broadcaster::new(plan_for_a(&[0, 1, 2, 3]), vec![addr(1)], profile, false);
    let (stamped, _, b) = drive(b, 0, Some(2));
    assert_eq!(stamped, vec![0, 1]);
    assert_eq!(b.sequence.index, 2);
    assert_eq!(b.sequence.receipts.len(), 2);

    let b = Broadcaster::new(b.sequence, vec![addr(1)], profile, false);
    let (stamped, last, b) = drive(b, 2, None);
    assert_eq!(stamped, vec![2, 3]);
    assert!(matches!(last, Action::PersistAndFinish));
    assert_eq!(b.sequence.index, 4);
    assert_eq!(b.sequence.receipts, vec![1001, 1002, 1001, 1002]);
}

#[test]
fn unknown_sender_aborts_without_marking_entry() {
    let seq: DeploymentSequence<u64> = DeploymentSequence::new(vec![entry(addr(1), 0), entry(addr(2), 0)], "run.json".to_string());
    let b = Broadcaster::new(seq, vec![addr(1)], ChainProfile { chain_id: 1, legacy: true }, false);
    let (stamped, last, b) = drive(b, 0, None);
    assert_eq!(stamped, vec![0]);
    match last {
        Action::PersistAndAbort(e) => assert_eq!(e, BroadcastError::UnresolvedSender { sender: addr(2) }),
        other => panic!("expected abort, got {:?}", other),
    }
    assert_eq!(b.sequence.index, 1);
    assert_eq!(b.sequence.receipts.len(), 1);
}

#[test]
fn submission_outcomes_are_told_apart() {
    let profile = ChainProfile { chain_id: 1, legacy: false };
    for (event, expected) in [
        (Event::ReceiptUnavailable, BroadcastError::ReceiptUnavailable),
        (Event::SubmissionRejected, BroadcastError::SubmissionRejected),
    ] {
        let mut b = Broadcaster::new(plan_for_a(&[0]), vec![addr(1)], profile, false);
        assert!(matches!(b.advance(Event::Proceed), Action::QueryNonce { sender } if sender == addr(1)));
        assert!(matches!(b.advance(Event::NonceObserved(0)), Action::Submit { signer: 0, .. }));
        assert!(!b.accepts(&Event::Proceed));
        match b.advance(event) {
            Action::PersistAndAbort(e) => assert_eq!(e, expected),
            other => panic!("expected abort, got {:?}", other),
        }
        assert_eq!(b.sequence.index, 0);
        assert!(!b.accepts(&Event::Proceed));
    }
}

#[test]
fn nonce_query_failure_aborts() {
    let mut b = Broadcaster::new(plan_for_a(&[3]), vec![addr(1)], ChainProfile { chain_id: 1, legacy: false }, true);
    b.advance(Event::Proceed);
    match b.advance(Event::NonceUnavailable) {
        Action::PersistAndAbort(e) => assert_eq!(e, BroadcastError::NonceUnavailable { sender: addr(1) }),
        other => panic!("expected abort, got {:?}", other),
    }
}

#[test]
fn empty_plan_finishes_at_once() {
    let mut b = Broadcaster::new(plan_for_a(&[]), vec![addr(1)], ChainProfile { chain_id: 1, legacy: false }, false);
    assert!(matches!(b.advance(Event::Proceed), Action::PersistAndFinish));
    assert_eq!(b.phase, Phase::Finished);
}

#[test]
fn signer_is_first_matching_identity() {
    let seq: DeploymentSequence<u64> = DeploymentSequence::new(vec![entry(addr(2), 0)], "run.json".to_string());
    let mut b = Broadcaster::new(seq, vec![addr(1), addr(2), addr(2)], ChainProfile { chain_id: 1, legacy: false }, false);
    b.advance(Event::Proceed);
    assert_eq!(b.phase, Phase::AwaitingNonce { signer: 1 });
}

#[test]
fn reconcile_strict_requires_equality() {
    let mut t = NonceOffsetTable::new();
    assert_eq!(t.reconcile(addr(1), 4, 4, false), Some(4));
    assert_eq!(t.reconcile(addr(1), 4, 6, false), None);
    assert_eq!(t.get(addr(1)), None);
}

#[test]
fn reconcile_resume_fixes_offset_once_per_sender() {
    let mut t = NonceOffsetTable::new();
    assert_eq!(t.reconcile(addr(1), 5, 7, true), Some(7));
    assert_eq!(t.get(addr(1)), Some(2));
    assert_eq!(t.reconcile(addr(1), 6, 8, true), Some(8));
    // A further shift is not forgiven.
    assert_eq!(t.reconcile(addr(1), 7, 10, true), None);
    assert_eq!(t.get(addr(1)), Some(2));
    assert_eq!(t.expected(addr(1), 7, true), 9);
    // Another sender gets its own offset.
    assert_eq!(t.reconcile(addr(2), 0, 0, true), Some(0));
    assert_eq!(t.get(addr(2)), Some(0));
    assert_eq!(t.reconcile(addr(2), 1, 2, true), None);
}

#[test]
fn reconcile_resume_rejects_chain_behind_plan() {
    let mut t = NonceOffsetTable::new();
    assert_eq!(t.reconcile(addr(1), 5, 3, true), None);
    assert_eq!(t.get(addr(1)), None);
}

#[test]
fn reconcile_resume_offset_overflow_is_conflict() {
    let mut t = NonceOffsetTable::new();
    assert_eq!(t.reconcile(addr(1), 0, 10, true), Some(10));
    assert_eq!(t.reconcile(addr(1), u64::MAX, u64::MAX, true), None);
    assert_eq!(t.expected(addr(1), u64::MAX, true), u64::MAX);
}

#[test]
fn sequence_append_advances_cursor() {
    let mut s = plan_for_a(&[0, 1]);
    assert!(!s.is_complete());
    s.append_receipt(7);
    assert_eq!(s.index, 1);
    s.append_receipt(8);
    assert!(s.is_complete());
    assert_eq!(s.receipts, vec![7, 8]);
    assert_eq!(s.path, "run.json");
}

#[test]
fn empty_identity_pool_aborts_before_any_entry() {
    let mut b = Broadcaster::new(plan_for_a(&[0]), vec![], ChainProfile { chain_id: 1, legacy: false }, false);
    match b.advance(Event::Proceed) {
        Action::PersistAndAbort(e) => assert_eq!(e, BroadcastError::NoSigner),
        other => panic!("expected abort, got {:?}", other),
    }
    assert_eq!(b.sequence.index, 0);
    let mut empty = Broadcaster::new(plan_for_a(&[]), vec![], ChainProfile { chain_id: 1, legacy: false }, false);
    assert!(matches!(empty.advance(Event::Proceed), Action::PersistAndAbort(BroadcastError::NoSigner)));
}

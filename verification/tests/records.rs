use solana_bridge::controller::{TokensLocked, TokensLockedEvent};
use solana_bridge::errors::BridgeError;
use solana_bridge::pending::{PendingTransfer, GRACE_WINDOW};
use solana_bridge::proof_store::{AlreadyPresent, ProcessedProofs};

#[test]
fn proof_store_rejects_duplicates() {
    let mut store = ProcessedProofs::new();
    assert_eq!(store.len(), 0);
    let d = [5u8; 32];
    assert!(!store.contains(&d));
    assert_eq!(store.insert(d), Ok(()));
    assert!(store.contains(&d));
    assert_eq!(store.insert(d), Err(AlreadyPresent));
    assert_eq!(store.len(), 1);
    let other = [6u8; 32];
    assert_eq!(store.insert(other), Ok(()));
    assert_eq!(store.len(), 2);
}

#[test]
fn pending_transfer_lifecycle() {
    let user = [3u8; 32];
    let mut p = PendingTransfer::create(user, 100, 42, 1000).unwrap();
    assert_eq!(p.user, user);
    assert_eq!(p.amount, 100);
    assert_eq!(p.nonce, 42);
    assert_eq!(p.deadline, 1000 + GRACE_WINDOW);
    assert!(!p.consumed);

    assert_eq!(p.close(1000 + GRACE_WINDOW - 1), Err(BridgeError::DeadlineNotExpired));
    assert!(!p.consumed);
    assert_eq!(p.close(1000 + GRACE_WINDOW), Ok(100));
    assert!(p.consumed);
    assert_eq!(p.close(1000 + GRACE_WINDOW + 50), Err(BridgeError::ReplayDetected));
}

#[test]
fn pending_transfer_create_rejects_clock_overflow() {
    let r = PendingTransfer::create([3u8; 32], 100, 42, i64::MAX - 1);
    assert_eq!(r.err(), Some(BridgeError::ArithmeticOverflow));
}

#[test]
fn event_wire_copy_keeps_fields() {
    let e = TokensLocked {
        user: [3u8; 32],
        amount: 100,
        nonce: 42,
        proof: [8u8; 32],
        block_height: 12,
    };
    let w = TokensLockedEvent::of(&e);
    assert_eq!(w.user, e.user);
    assert_eq!(w.amount, e.amount);
    assert_eq!(w.nonce, e.nonce);
    assert_eq!(w.proof, e.proof);
    assert_eq!(w.block_height, e.block_height);
}

use crystals_dilithium::dilithium3::Keypair;
use sha2::Digest;
use solana_bridge::controller::{
    lock_tokens, lock_tokens_with_nonce, revert_lock_guarded, unlock_tokens,
};
use solana_bridge::crypto::compute_digest;
use solana_bridge::errors::BridgeError;
use solana_bridge::ledger::{initialize, pause_bridge, BridgeConfig};
use solana_bridge::proof_store::ProcessedProofs;
use solana_bridge::threshold::{first_matching_validator, verify_threshold};

const ADMIN: [u8; 32] = [7u8; 32];
const USER: [u8; 32] = [3u8; 32];

fn keypairs(n: usize) -> Vec<Keypair> {
    let mut pairs = Vec::new();
    for i in 0..n {
        let seed = [i as u8 + 1; 32];
        pairs.push(Keypair::generate(Some(&seed)).unwrap());
    }
    pairs
}

fn public_keys(pairs: &[Keypair]) -> Vec<Vec<u8>> {
    pairs.iter().map(|p| p.public.to_bytes().to_vec()).collect()
}

fn bridge(cap: u64) -> (BridgeConfig, Vec<Keypair>) {
    let pairs = keypairs(5);
    let config = initialize(ADMIN, cap, public_keys(&pairs)).unwrap();
    (config, pairs)
}

#[test]
fn digest_is_sha256_of_parameters() {
    let nonce: u64 = 42;
    let amount: u64 = 100;
    let mut preimage = Vec::new();
    preimage.extend_from_slice(&USER);
    preimage.extend_from_slice(&amount.to_le_bytes());
    preimage.extend_from_slice(&nonce.to_le_bytes());
    let expected: [u8; 32] = sha2::Sha256::digest(&preimage).into();
    assert_eq!(compute_digest(&USER, amount, nonce), expected);
}

#[test]
fn digests_differ_with_parameters() {
    let a = compute_digest(&USER, 100, 1);
    let b = compute_digest(&USER, 100, 2);
    let c = compute_digest(&USER, 101, 1);
    let d = compute_digest(&ADMIN, 100, 1);
    assert_ne!(a, b);
    assert_ne!(a, c);
    assert_ne!(a, d);
}

#[test]
fn lock_increases_total_and_records_proof() {
    let (mut config, _) = bridge(1000);
    let mut processed = ProcessedProofs::new();
    let (pending, event) =
        lock_tokens(&mut config, &mut processed, USER, 100, 50, 12).unwrap();
    assert_eq!(config.total_locked, 100);
    assert_eq!(event.user, USER);
    assert_eq!(event.amount, 100);
    assert_eq!(event.block_height, 12);
    assert_eq!(event.proof, compute_digest(&USER, 100, event.nonce));
    assert_eq!(processed.len(), 1);
    assert!(processed.contains(&event.proof));
    assert_eq!(pending.user, USER);
    assert_eq!(pending.amount, 100);
    assert_eq!(pending.nonce, event.nonce);
    assert_eq!(pending.deadline, 350);
    assert!(!pending.consumed);
}

#[test]
fn lock_rejects_amount_above_cap() {
    let (mut config, _) = bridge(1000);
    let mut processed = ProcessedProofs::new();
    let r = lock_tokens(&mut config, &mut processed, USER, 2000, 50, 12);
    assert_eq!(r.err(), Some(BridgeError::AmountExceedsCap));
    assert_eq!(config.total_locked, 0);
    assert_eq!(processed.len(), 0);
}

#[test]
fn lock_rejects_zero_amount_and_paused() {
    let (mut config, _) = bridge(1000);
    let mut processed = ProcessedProofs::new();
    assert_eq!(
        lock_tokens(&mut config, &mut processed, USER, 0, 50, 12).err(),
        Some(BridgeError::InvalidAmount)
    );
    pause_bridge(&mut config, ADMIN).unwrap();
    assert_eq!(
        lock_tokens(&mut config, &mut processed, USER, 100, 50, 12).err(),
        Some(BridgeError::Paused)
    );
    assert_eq!(config.total_locked, 0);
}

#[test]
fn second_lock_with_same_digest_is_replay() {
    let (mut config, _) = bridge(1000);
    let mut processed = ProcessedProofs::new();
    assert!(lock_tokens_with_nonce(&mut config, &mut processed, USER, 100, 42, 50, 12).is_ok());
    let r = lock_tokens_with_nonce(&mut config, &mut processed, USER, 100, 42, 60, 13);
    assert_eq!(r.err(), Some(BridgeError::ReplayDetected));
    assert_eq!(config.total_locked, 100);
    assert_eq!(processed.len(), 1);
}

#[test]
fn lock_overflow_is_rejected() {
    let (mut config, _) = bridge(u64::MAX);
    let mut processed = ProcessedProofs::new();
    assert!(lock_tokens_with_nonce(&mut config, &mut processed, USER, u64::MAX, 1, 50, 12).is_ok());
    let r = lock_tokens_with_nonce(&mut config, &mut processed, USER, 1, 2, 50, 12);
    assert_eq!(r.err(), Some(BridgeError::ArithmeticOverflow));
    assert_eq!(config.total_locked, u64::MAX);
}

#[test]
fn lock_deadline_overflow_is_rejected() {
    let (mut config, _) = bridge(1000);
    let mut processed = ProcessedProofs::new();
    let r = lock_tokens_with_nonce(&mut config, &mut processed, USER, 100, 1, i64::MAX - 10, 12);
    assert_eq!(r.err(), Some(BridgeError::ArithmeticOverflow));
    assert_eq!(config.total_locked, 0);
    assert_eq!(processed.len(), 0);
}

#[test]
fn threshold_counts_distinct_validators_only() {
    let pairs = keypairs(5);
    let keys = public_keys(&pairs);
    let message = compute_digest(&USER, 100, 42);
    let one_sig = pairs[1].sign(&message).to_vec();
    // The same validator's signature three times over: one distinct credit.
    let redundant = vec![one_sig.clone(), one_sig.clone(), one_sig.clone()];
    assert!(!verify_threshold(&redundant, &message, &keys, 3));
    // Three different validators: quorum reached.
    let distinct = vec![
        pairs[0].sign(&message).to_vec(),
        pairs[2].sign(&message).to_vec(),
        pairs[4].sign(&message).to_vec(),
    ];
    assert!(verify_threshold(&distinct, &message, &keys, 3));
    // Two distinct plus one redundant: still below a quorum of three.
    let two_distinct = vec![
        pairs[0].sign(&message).to_vec(),
        pairs[2].sign(&message).to_vec(),
        pairs[0].sign(&message).to_vec(),
    ];
    assert!(!verify_threshold(&two_distinct, &message, &keys, 3));
}

#[test]
fn first_match_credits_the_right_validator() {
    let pairs = keypairs(5);
    let keys = public_keys(&pairs);
    let message = compute_digest(&USER, 100, 42);
    let sig = pairs[3].sign(&message).to_vec();
    assert_eq!(first_matching_validator(&sig, &message, &keys), Some(3));
    let mut corrupted = sig.clone();
    corrupted[0] ^= 0xff;
    assert_eq!(first_matching_validator(&corrupted, &message, &keys), None);
    // Malformed signatures and keys fail closed.
    let short_sig = vec![1u8; 10];
    assert_eq!(first_matching_validator(&short_sig, &message, &keys), None);
    let bad_keys = vec![vec![1u8; 10]; 5];
    assert_eq!(first_matching_validator(&sig, &message, &bad_keys), None);
}

#[test]
fn lock_then_unlock_round_trip_and_replay() {
    let (mut config, pairs) = bridge(1000);
    let mut lock_side = ProcessedProofs::new();
    let mut unlock_side = ProcessedProofs::new();

    let (_, event) = lock_tokens(&mut config, &mut lock_side, USER, 100, 50, 12).unwrap();
    assert_eq!(config.total_locked, 100);

    let signatures: Vec<Vec<u8>> = vec![
        pairs[0].sign(&event.proof).to_vec(),
        pairs[1].sign(&event.proof).to_vec(),
        pairs[2].sign(&event.proof).to_vec(),
    ];
    let released = unlock_tokens(
        &mut config,
        &mut unlock_side,
        USER,
        100,
        event.nonce,
        event.proof,
        signatures.clone(),
        12,
        12,
    )
    .unwrap();
    assert_eq!(released, 100);
    assert_eq!(config.total_locked, 0);
    assert!(unlock_side.contains(&event.proof));

    // Replaying the identical unlock is rejected and changes nothing.
    let r = unlock_tokens(
        &mut config,
        &mut unlock_side,
        USER,
        100,
        event.nonce,
        event.proof,
        signatures,
        12,
        12,
    );
    assert_eq!(r.err(), Some(BridgeError::ReplayDetected));
    assert_eq!(config.total_locked, 0);
}

#[test]
fn unlocked_transfer_cannot_be_reverted() {
    let (mut config, pairs) = bridge(1000);
    let mut lock_side = ProcessedProofs::new();
    let mut unlock_side = ProcessedProofs::new();
    let (mut pending, event) =
        lock_tokens(&mut config, &mut lock_side, USER, 100, 50, 12).unwrap();
    let signatures = vec![
        pairs[0].sign(&event.proof).to_vec(),
        pairs[1].sign(&event.proof).to_vec(),
        pairs[2].sign(&event.proof).to_vec(),
    ];
    unlock_tokens(
        &mut config,
        &mut unlock_side,
        USER,
        100,
        event.nonce,
        event.proof,
        signatures,
        12,
        12,
    )
    .unwrap();
    assert_eq!(config.total_locked, 0);

    // Even past the deadline, the guarded refund sees the recorded unlock
    // and refuses: the same lock is never paid out twice.
    let r = revert_lock_guarded(&mut config, &mut pending, &unlock_side, 400);
    assert_eq!(r.err(), Some(BridgeError::ReplayDetected));
    assert!(!pending.consumed);
    assert_eq!(config.total_locked, 0);

    // A lock that was never unlocked is still refundable through the guard.
    let (mut pending2, _) = lock_tokens(&mut config, &mut lock_side, USER, 70, 50, 12).unwrap();
    assert_eq!(config.total_locked, 70);
    let refund = revert_lock_guarded(&mut config, &mut pending2, &unlock_side, 400).unwrap();
    assert_eq!(refund, 70);
    assert!(pending2.consumed);
    assert_eq!(config.total_locked, 0);
}

#[test]
fn unlock_rejects_insufficient_quorum() {
    let (mut config, pairs) = bridge(1000);
    let mut lock_side = ProcessedProofs::new();
    let mut unlock_side = ProcessedProofs::new();
    let (_, event) = lock_tokens(&mut config, &mut lock_side, USER, 100, 50, 12).unwrap();

    // Two distinct validators, the third signature redundant.
    let signatures = vec![
        pairs[0].sign(&event.proof).to_vec(),
        pairs[1].sign(&event.proof).to_vec(),
        pairs[0].sign(&event.proof).to_vec(),
    ];
    let r = unlock_tokens(
        &mut config,
        &mut unlock_side,
        USER,
        100,
        event.nonce,
        event.proof,
        signatures,
        12,
        12,
    );
    assert_eq!(r.err(), Some(BridgeError::VerificationFailed));
    assert_eq!(config.total_locked, 100);
    assert_eq!(unlock_side.len(), 0);
}

#[test]
fn unlock_rejects_mismatched_proof() {
    let (mut config, pairs) = bridge(1000);
    let mut unlock_side = ProcessedProofs::new();
    config.total_locked = 100;
    let claimed = compute_digest(&USER, 100, 41);
    // Signatures over the digest of different parameters do not help: the
    // claimed proof must equal the recomputed digest.
    let signatures = vec![
        pairs[0].sign(&claimed).to_vec(),
        pairs[1].sign(&claimed).to_vec(),
        pairs[2].sign(&claimed).to_vec(),
    ];
    let r = unlock_tokens(
        &mut config,
        &mut unlock_side,
        USER,
        100,
        42,
        claimed,
        signatures,
        12,
        12,
    );
    assert_eq!(r.err(), Some(BridgeError::VerificationFailed));
    assert_eq!(config.total_locked, 100);
}

#[test]
fn unlock_rejects_stale_height() {
    let (mut config, pairs) = bridge(1000);
    let mut unlock_side = ProcessedProofs::new();
    config.total_locked = 100;
    let proof = compute_digest(&USER, 100, 42);
    let signatures = vec![
        pairs[0].sign(&proof).to_vec(),
        pairs[1].sign(&proof).to_vec(),
        pairs[2].sign(&proof).to_vec(),
    ];
    // Claimed height 15 against current height 12: beyond the tolerance of 2.
    let r = unlock_tokens(
        &mut config,
        &mut unlock_side,
        USER,
        100,
        42,
        proof,
        signatures.clone(),
        15,
        12,
    );
    assert_eq!(r.err(), Some(BridgeError::StaleProof));
    // Exactly at the tolerance the claim is accepted.
    let released = unlock_tokens(
        &mut config,
        &mut unlock_side,
        USER,
        100,
        42,
        proof,
        signatures,
        14,
        12,
    )
    .unwrap();
    assert_eq!(released, 100);
}

#[test]
fn unlock_rejects_underflow() {
    let (mut config, pairs) = bridge(1000);
    let mut unlock_side = ProcessedProofs::new();
    config.total_locked = 50;
    let proof = compute_digest(&USER, 100, 42);
    let signatures = vec![
        pairs[0].sign(&proof).to_vec(),
        pairs[1].sign(&proof).to_vec(),
        pairs[2].sign(&proof).to_vec(),
    ];
    let r = unlock_tokens(
        &mut config,
        &mut unlock_side,
        USER,
        100,
        42,
        proof,
        signatures,
        12,
        12,
    );
    assert_eq!(r.err(), Some(BridgeError::ArithmeticUnderflow));
    assert_eq!(config.total_locked, 50);
    assert_eq!(unlock_side.len(), 0);
}

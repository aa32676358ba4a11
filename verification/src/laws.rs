use vstd::prelude::*;
use crate::controller::{
    guarded_revert_check, lock_check, recovery_check, revert_check, unlock_check,
    HEIGHT_TOLERANCE, QUORUM,
};
use crate::crypto::digest_of;
use crate::errors::BridgeError;
use crate::ledger::BridgeConfig;
use crate::pending::PendingTransfer;
use crate::proof_store::ProcessedProofs;
use crate::threshold::{
    credited_set, first_match, lemma_credited_set_bounds, quorum_met, seq_views,
};

verus! {

/// No proof fingerprint is accepted twice. After a lock or unlock has
/// recorded the digest `d` -- the store grew by exactly that entry -- a lock
/// presenting the same parameters, valid in every other respect, is rejected
/// with `ReplayDetected`.
pub proof fn lemma_second_lock_rejected(
    c: BridgeConfig,
    p0: ProcessedProofs,
    p1: ProcessedProofs,
    d: [u8; 32],
    user: Seq<u8>,
    amount: u64,
    nonce: u64,
    now: i64,
)
    requires
        p1.proofs@ == p0.proofs@.push(d),
        d@ == digest_of(user, amount, nonce),
        !c.paused,
        0 < amount <= c.max_transfer_amount,
    ensures
        lock_check(c, p1, user, amount, nonce, now) == Some(BridgeError::ReplayDetected),
{
    assert(p1.proofs@[p1.proofs@.len() - 1]@ == digest_of(user, amount, nonce));
}

/// The unlock side of the same replay guarantee: with the digest `d` already
/// recorded, an unlock claiming the same parameters is rejected with
/// `ReplayDetected` even when its signatures reach the quorum.
pub proof fn lemma_second_unlock_rejected(
    c: BridgeConfig,
    p0: ProcessedProofs,
    p1: ProcessedProofs,
    d: [u8; 32],
    user: Seq<u8>,
    amount: u64,
    nonce: u64,
    sigs: Seq<Seq<u8>>,
    claimed_height: u64,
    current_height: u64,
)
    requires
        p1.proofs@ == p0.proofs@.push(d),
        d@ == digest_of(user, amount, nonce),
        !c.paused,
        amount > 0,
        claimed_height <= current_height + HEIGHT_TOLERANCE,
        quorum_met(sigs, digest_of(user, amount, nonce), seq_views(c.validators@), QUORUM),
    ensures
        unlock_check(c, p1, user, amount, nonce, d@, sigs, claimed_height, current_height)
            == Some(BridgeError::ReplayDetected),
{
    assert(p1.proofs@[p1.proofs@.len() - 1]@ == digest_of(user, amount, nonce));
}

/// An unlock is accepted only when at least `QUORUM` distinct validators'
/// signatures verify against the digest recomputed from the claimed
/// parameters, and only when the claimed proof is exactly that digest.
pub proof fn lemma_unlock_requires_quorum(
    c: BridgeConfig,
    p: ProcessedProofs,
    user: Seq<u8>,
    amount: u64,
    nonce: u64,
    proof: Seq<u8>,
    sigs: Seq<Seq<u8>>,
    claimed_height: u64,
    current_height: u64,
)
    requires
        unlock_check(c, p, user, amount, nonce, proof, sigs, claimed_height, current_height)
            is None,
    ensures
        proof == digest_of(user, amount, nonce),
        credited_set(sigs, digest_of(user, amount, nonce), seq_views(c.validators@)).len()
            >= QUORUM,
{
}

/// A further signature credited to an already-credited validator -- or to no
/// validator at all -- leaves the set of credited validators unchanged:
/// redundant signatures never help a bundle toward the quorum.
pub proof fn lemma_redundant_signature_adds_nothing(
    sigs: Seq<Seq<u8>>,
    s: Seq<u8>,
    msg: Seq<u8>,
    validators: Seq<Seq<u8>>,
)
    requires
        match first_match(s, msg, validators) {
            Some(j) => credited_set(sigs, msg, validators).contains(j),
            None => true,
        },
    ensures
        credited_set(sigs.push(s), msg, validators) == credited_set(sigs, msg, validators),
{
    assert(sigs.push(s).drop_last() =~= sigs);
    assert(sigs.push(s).last() == s);
    match first_match(s, msg, validators) {
        Some(j) => {
            assert(credited_set(sigs, msg, validators).insert(j) =~= credited_set(
                sigs,
                msg,
                validators,
            ));
        },
        None => {},
    }
}

/// Every validator credited over `sigs` is the one validator `v`, where each
/// signature either credits `v` or credits nobody.
proof fn lemma_single_validator_subset(
    sigs: Seq<Seq<u8>>,
    msg: Seq<u8>,
    validators: Seq<Seq<u8>>,
    v: int,
)
    requires
        forall|i: int| 0 <= i < sigs.len() ==> ((#[trigger] first_match(sigs[i], msg, validators))
            matches Some(j) ==> j == v),
    ensures
        forall|j: int| credited_set(sigs, msg, validators).contains(j) ==> j == v,
    decreases sigs.len(),
{
    if sigs.len() == 0 {
    } else {
        let prefix = sigs.drop_last();
        assert forall|i: int| 0 <= i < prefix.len() implies ((#[trigger] first_match(
            prefix[i],
            msg,
            validators,
        )) matches Some(j) ==> j == v) by {
            assert(prefix[i] == sigs[i]);
            assert((first_match(sigs[i], msg, validators) matches Some(j) ==> j == v));
        }
        lemma_single_validator_subset(prefix, msg, validators, v);
        let last = sigs.last();
        assert(last == sigs[sigs.len() - 1]);
        assert((first_match(last, msg, validators) matches Some(j) ==> j == v));
        assert forall|j: int| credited_set(sigs, msg, validators).contains(j) implies j == v by {
            let prev = credited_set(prefix, msg, validators);
            match first_match(last, msg, validators) {
                Some(jj) => {
                    assert(jj == v);
                    assert(credited_set(sigs, msg, validators) == prev.insert(jj));
                    if j != jj {
                        assert(prev.contains(j));
                    }
                },
                None => {
                    assert(credited_set(sigs, msg, validators) == prev);
                    assert(prev.contains(j));
                },
            }
        }
    }
}

/// However many signatures are submitted, if each of them credits the same
/// single validator (or none), at most one distinct validator is counted, so
/// the bundle never reaches the quorum.
pub proof fn lemma_redundant_signatures_insufficient(
    sigs: Seq<Seq<u8>>,
    msg: Seq<u8>,
    validators: Seq<Seq<u8>>,
    v: int,
)
    requires
        forall|i: int| 0 <= i < sigs.len() ==> ((#[trigger] first_match(sigs[i], msg, validators))
            matches Some(j) ==> j == v),
    ensures
        credited_set(sigs, msg, validators).len() <= 1,
        !quorum_met(sigs, msg, validators, QUORUM),
{
    lemma_single_validator_subset(sigs, msg, validators, v);
    lemma_credited_set_bounds(sigs, msg, validators);
    let s = credited_set(sigs, msg, validators);
    if s.contains(v) {
        assert(s =~= Set::empty().insert(v));
        assert(s.len() == 1);
    } else {
        assert(s =~= Set::empty());
    }
}

/// A consumed pending transfer can never be refunded again, at any time and
/// against any ledger: the terminal states of a lock's lifecycle stay
/// terminal.
pub proof fn lemma_revert_not_repeatable(c: BridgeConfig, pending: PendingTransfer, now: i64)
    requires
        pending.consumed,
    ensures
        revert_check(c, pending, now) == Some(BridgeError::ReplayDetected),
{
}

/// The locked total never underflows through unlock: a claim for more than
/// is currently locked is rejected, whatever else holds of it.
pub proof fn lemma_unlock_never_underflows(
    c: BridgeConfig,
    p: ProcessedProofs,
    user: Seq<u8>,
    amount: u64,
    nonce: u64,
    proof: Seq<u8>,
    sigs: Seq<Seq<u8>>,
    claimed_height: u64,
    current_height: u64,
)
    requires
        amount > c.total_locked,
    ensures
        unlock_check(c, p, user, amount, nonce, proof, sigs, claimed_height, current_height)
            is Some,
{
}

/// The locked total never underflows through revert: a refund larger than
/// the current total is rejected, whatever else holds of the record.
pub proof fn lemma_revert_never_underflows(c: BridgeConfig, pending: PendingTransfer, now: i64)
    requires
        pending.amount > c.total_locked,
    ensures
        revert_check(c, pending, now) is Some,
{
}

/// The locked total never underflows through recovery: an executed recovery
/// claiming more than is currently locked is rejected, whatever else holds
/// of the call.
pub proof fn lemma_recovery_never_underflows(
    c: BridgeConfig,
    caller: Seq<u8>,
    amount: u64,
    now: i64,
)
    requires
        amount > c.total_locked,
    ensures
        recovery_check(c, caller, amount, now) is Some,
{
}

/// Double release is impossible through the guarded refund: once an unlock
/// has recorded a lock's digest in the unlock-side store, a guarded revert
/// of that lock is rejected as a replay, at any time and against any
/// ledger.
pub proof fn lemma_no_double_release(
    c: BridgeConfig,
    p0: ProcessedProofs,
    p1: ProcessedProofs,
    d: [u8; 32],
    pending: PendingTransfer,
    now: i64,
)
    requires
        p1.proofs@ == p0.proofs@.push(d),
        d@ == digest_of(pending.user@, pending.amount, pending.nonce),
    ensures
        guarded_revert_check(c, pending, p1, now) == Some(BridgeError::ReplayDetected),
{
    assert(p1.proofs@[p1.proofs@.len() - 1]@ == digest_of(
        pending.user@,
        pending.amount,
        pending.nonce,
    ));
}

} // verus!

use vstd::prelude::*;
use crate::crypto::{compute_digest, digest_of, random_u64};
use crate::errors::BridgeError;
use crate::ledger::BridgeConfig;
use crate::pending::{PendingTransfer, GRACE_WINDOW};
use crate::proof_store::ProcessedProofs;
use crate::threshold::{quorum_met, seq_views, verify_threshold};

verus! {

/// Distinct validators that must sign a digest before funds are released.
/// Fixed policy, deliberately independent of the validator set's size.
pub const QUORUM: usize = 3;

/// How far a claimed height may run ahead of the current height before the
/// relayed proof counts as stale.
pub const HEIGHT_TOLERANCE: u64 = 2;

/// Mandatory warning period between announcing an emergency recovery and
/// executing it.
pub const RECOVERY_DELAY: i64 = 86400;

/// Notification of a successful lock, for off-chain relayers to observe and
/// propagate to the counterpart chain.
pub struct TokensLocked {
    pub user: [u8; 32],
    pub amount: u64,
    pub nonce: u64,
    pub proof: [u8; 32],
    pub block_height: u64,
}

/// The wire shape of a [`TokensLocked`] notification; the unverified rim
/// around the library serializes it.
pub struct TokensLockedEvent {
    pub user: [u8; 32],
    pub amount: u64,
    pub nonce: u64,
    pub proof: [u8; 32],
    pub block_height: u64,
}

impl TokensLockedEvent {
    /// Copies a notification into its wire shape.
    pub fn of(e: &TokensLocked) -> (r: TokensLockedEvent)
        ensures
            r.user == e.user && r.amount == e.amount && r.nonce == e.nonce && r.proof == e.proof
                && r.block_height == e.block_height,
    {
        TokensLockedEvent {
            user: e.user,
            amount: e.amount,
            nonce: e.nonce,
            proof: e.proof,
            block_height: e.block_height,
        }
    }
}

/// Which error a lock with these parameters is rejected with, if any; the
/// checks apply in this order.
pub open spec fn lock_check(
    c: BridgeConfig,
    p: ProcessedProofs,
    user: Seq<u8>,
    amount: u64,
    nonce: u64,
    now: i64,
) -> Option<BridgeError> {
    if c.paused {
        Some(BridgeError::Paused)
    } else if amount == 0 {
        Some(BridgeError::InvalidAmount)
    } else if amount > c.max_transfer_amount {
        Some(BridgeError::AmountExceedsCap)
    } else if p.spec_contains(digest_of(user, amount, nonce)) {
        Some(BridgeError::ReplayDetected)
    } else if now + GRACE_WINDOW > i64::MAX || c.total_locked + amount > u64::MAX {
        Some(BridgeError::ArithmeticOverflow)
    } else {
        None
    }
}

/// Locks `amount` for `user` under a caller-committed nonce. On success the
/// locked total rises by exactly `amount`, the transfer's fresh fingerprint
/// is recorded, a pending record with the refund deadline is opened, and the
/// returned notification carries the parameters the counterpart chain needs;
/// the caller then moves `amount` from `user` into bridge custody. On error
/// nothing changes.
pub fn lock_tokens_with_nonce(
    config: &mut BridgeConfig,
    processed: &mut ProcessedProofs,
    user: [u8; 32],
    amount: u64,
    nonce: u64,
    now: i64,
    block_height: u64,
) -> (r: Result<(PendingTransfer, TokensLocked), BridgeError>)
    requires
        old(processed).wf(),
    ensures
        final(processed).wf(),
        match r {
            Ok((pending, event)) => {
                &&& lock_check(*old(config), *old(processed), user@, amount, nonce, now) is None
                &&& final(config).same_but_total(*old(config))
                &&& final(config).total_locked == old(config).total_locked + amount
                &&& final(processed).proofs@ == old(processed).proofs@.push(event.proof)
                &&& event.proof@ == digest_of(user@, amount, nonce)
                &&& event.user == user
                &&& event.amount == amount
                &&& event.nonce == nonce
                &&& event.block_height == block_height
                &&& pending.user == user
                &&& pending.amount == amount
                &&& pending.nonce == nonce
                &&& pending.deadline == now + GRACE_WINDOW
                &&& !pending.consumed
            },
            Err(e) => {
                &&& lock_check(*old(config), *old(processed), user@, amount, nonce, now) == Some(e)
                &&& *final(config) == *old(config)
                &&& *final(processed) == *old(processed)
            },
        },
{
    if config.paused {
        return Err(BridgeError::Paused);
    }
    if amount == 0 {
        return Err(BridgeError::InvalidAmount);
    }
    if amount > config.max_transfer_amount {
        return Err(BridgeError::AmountExceedsCap);
    }
    let proof = compute_digest(&user, amount, nonce);
    if processed.contains(&proof) {
        return Err(BridgeError::ReplayDetected);
    }
    let pending = PendingTransfer::create(user, amount, nonce, now)?;
    let new_total = match config.total_locked.checked_add(amount) {
        Some(t) => t,
        None => {
            return Err(BridgeError::ArithmeticOverflow);
        },
    };
    match processed.insert(proof) {
        Ok(()) => (),
        Err(_) => {
            proof {
                assert(false);
            }
            return Err(BridgeError::ReplayDetected);
        },
    }
    config.total_locked = new_total;
    let event = TokensLocked { user, amount, nonce, proof, block_height };
    Ok((pending, event))
}

/// Locks `amount` for `user` under a nonce drawn from the system's entropy
/// source. Whatever nonce comes back, the call behaves as
/// [`lock_tokens_with_nonce`] does for it: the returned notification carries
/// the nonce, and an error is one that `lock_check` yields for some nonce,
/// with nothing changed.
pub fn lock_tokens(
    config: &mut BridgeConfig,
    processed: &mut ProcessedProofs,
    user: [u8; 32],
    amount: u64,
    now: i64,
    block_height: u64,
) -> (r: Result<(PendingTransfer, TokensLocked), BridgeError>)
    requires
        old(processed).wf(),
    ensures
        final(processed).wf(),
        match r {
            Ok((pending, event)) => {
                &&& lock_check(
                    *old(config),
                    *old(processed),
                    user@,
                    amount,
                    event.nonce,
                    now,
                ) is None
                &&& final(config).same_but_total(*old(config))
                &&& final(config).total_locked == old(config).total_locked + amount
                &&& final(processed).proofs@ == old(processed).proofs@.push(event.proof)
                &&& event.proof@ == digest_of(user@, amount, event.nonce)
                &&& event.user == user
                &&& event.amount == amount
                &&& event.block_height == block_height
                &&& pending.user == user
                &&& pending.amount == amount
                &&& pending.nonce == event.nonce
                &&& pending.deadline == now + GRACE_WINDOW
                &&& !pending.consumed
            },
            Err(e) => {
                &&& exists|n: u64|
                    lock_check(*old(config), *old(processed), user@, amount, n, now) == Some(e)
                &&& *final(config) == *old(config)
                &&& *final(processed) == *old(processed)
            },
        },
{
    let nonce = random_u64();
    let r = lock_tokens_with_nonce(config, processed, user, amount, nonce, now, block_height);
    proof {
        if r is Err {
            let e = r->Err_0;
            assert(lock_check(*old(config), *old(processed), user@, amount, nonce, now) == Some(e));
        }
    }
    r
}

/// Which error an unlock with these parameters is rejected with, if any; the
/// checks apply in this order. `message` abbreviates the digest recomputed
/// from the claimed parameters.
pub open spec fn unlock_check(
    c: BridgeConfig,
    p: ProcessedProofs,
    user: Seq<u8>,
    amount: u64,
    nonce: u64,
    proof: Seq<u8>,
    sigs: Seq<Seq<u8>>,
    claimed_height: u64,
    current_height: u64,
) -> Option<BridgeError> {
    if c.paused {
        Some(BridgeError::Paused)
    } else if amount == 0 {
        Some(BridgeError::InvalidAmount)
    } else if claimed_height > current_height + HEIGHT_TOLERANCE {
        Some(BridgeError::StaleProof)
    } else if proof != digest_of(user, amount, nonce) {
        Some(BridgeError::VerificationFailed)
    } else if !quorum_met(sigs, digest_of(user, amount, nonce), seq_views(c.validators@), QUORUM) {
        Some(BridgeError::VerificationFailed)
    } else if p.spec_contains(proof) {
        Some(BridgeError::ReplayDetected)
    } else if amount > c.total_locked {
        Some(BridgeError::ArithmeticUnderflow)
    } else {
        None
    }
}

/// Releases `amount` to `user`, gated on a quorum of distinct validators
/// having signed the digest recomputed from the claimed parameters. On
/// success the proof is recorded against replay, the locked total falls by
/// exactly `amount`, and the caller then moves `amount` from bridge custody
/// to `user`. On error nothing changes.
pub fn unlock_tokens(
    config: &mut BridgeConfig,
    processed: &mut ProcessedProofs,
    user: [u8; 32],
    amount: u64,
    nonce: u64,
    proof: [u8; 32],
    signatures: Vec<Vec<u8>>,
    claimed_height: u64,
    current_height: u64,
) -> (r: Result<u64, BridgeError>)
    requires
        old(processed).wf(),
    ensures
        final(processed).wf(),
        match r {
            Ok(released) => {
                &&& unlock_check(
                    *old(config),
                    *old(processed),
                    user@,
                    amount,
                    nonce,
                    proof@,
                    seq_views(signatures@),
                    claimed_height,
                    current_height,
                ) is None
                &&& released == amount
                &&& final(config).same_but_total(*old(config))
                &&& final(config).total_locked == old(config).total_locked - amount
                &&& final(processed).proofs@ == old(processed).proofs@.push(proof)
            },
            Err(e) => {
                &&& unlock_check(
                    *old(config),
                    *old(processed),
                    user@,
                    amount,
                    nonce,
                    proof@,
                    seq_views(signatures@),
                    claimed_height,
                    current_height,
                ) == Some(e)
                &&& *final(config) == *old(config)
                &&& *final(processed) == *old(processed)
            },
        },
{
    if config.paused {
        return Err(BridgeError::Paused);
    }
    if amount == 0 {
        return Err(BridgeError::InvalidAmount);
    }
    if claimed_height > HEIGHT_TOLERANCE && claimed_height - HEIGHT_TOLERANCE > current_height {
        return Err(BridgeError::StaleProof);
    }
    let message = compute_digest(&user, amount, nonce);
    if !crate::bytes::bytes32_eq(&proof, &message) {
        return Err(BridgeError::VerificationFailed);
    }
    if !verify_threshold(&signatures, &message, &config.validators, QUORUM) {
        return Err(BridgeError::VerificationFailed);
    }
    if processed.contains(&proof) {
        return Err(BridgeError::ReplayDetected);
    }
    let new_total = match config.total_locked.checked_sub(amount) {
        Some(t) => t,
        None => {
            return Err(BridgeError::ArithmeticUnderflow);
        },
    };
    match processed.insert(proof) {
        Ok(()) => (),
        Err(_) => {
            proof {
                assert(false);
            }
            return Err(BridgeError::ReplayDetected);
        },
    }
    config.total_locked = new_total;
    Ok(amount)
}

/// Which error a refund of `pending` at time `now` is rejected with, if any;
/// the checks apply in this order.
pub open spec fn revert_check(c: BridgeConfig, pending: PendingTransfer, now: i64) -> Option<
    BridgeError,
> {
    if pending.consumed {
        Some(BridgeError::ReplayDetected)
    } else if now < pending.deadline {
        Some(BridgeError::DeadlineNotExpired)
    } else if pending.amount > c.total_locked {
        Some(BridgeError::ArithmeticUnderflow)
    } else {
        None
    }
}

/// Refunds an expired pending transfer. Only from the deadline on, and only
/// once per record: the record is consumed, the locked total falls by the
/// refunded amount, and the caller then moves that amount from bridge
/// custody back to the locking party. On error nothing changes.
pub fn revert_lock(config: &mut BridgeConfig, pending: &mut PendingTransfer, now: i64) -> (r: Result<
    u64,
    BridgeError,
>)
    ensures
        match r {
            Ok(refund) => {
                &&& revert_check(*old(config), *old(pending), now) is None
                &&& refund == old(pending).amount
                &&& *final(pending) == (PendingTransfer { consumed: true, ..*old(pending) })
                &&& final(config).same_but_total(*old(config))
                &&& final(config).total_locked == old(config).total_locked - refund
            },
            Err(e) => {
                &&& revert_check(*old(config), *old(pending), now) == Some(e)
                &&& *final(config) == *old(config)
                &&& *final(pending) == *old(pending)
            },
        },
{
    if pending.consumed {
        return Err(BridgeError::ReplayDetected);
    }
    if now < pending.deadline {
        return Err(BridgeError::DeadlineNotExpired);
    }
    let new_total = match config.total_locked.checked_sub(pending.amount) {
        Some(t) => t,
        None => {
            return Err(BridgeError::ArithmeticUnderflow);
        },
    };
    let refund = match pending.close(now) {
        Ok(a) => a,
        Err(_) => {
            proof {
                assert(false);
            }
            return Err(BridgeError::DeadlineNotExpired);
        },
    };
    config.total_locked = new_total;
    Ok(refund)
}

/// Which error a guarded refund is rejected with, if any: a lock whose
/// digest the unlock-side store already holds was released on the other
/// side, so refunding it as well would pay the same lock out twice.
pub open spec fn guarded_revert_check(
    c: BridgeConfig,
    pending: PendingTransfer,
    unlock_store: ProcessedProofs,
    now: i64,
) -> Option<BridgeError> {
    if unlock_store.spec_contains(digest_of(pending.user@, pending.amount, pending.nonce)) {
        Some(BridgeError::ReplayDetected)
    } else {
        revert_check(c, pending, now)
    }
}

/// Refunds an expired pending transfer, refusing one whose matching unlock
/// already released the funds: the record's digest is recomputed and looked
/// up in the unlock-side store, so an unlock and a later revert can never
/// both pay out the same lock through this entry point. Otherwise it
/// behaves as [`revert_lock`].
pub fn revert_lock_guarded(
    config: &mut BridgeConfig,
    pending: &mut PendingTransfer,
    unlock_store: &ProcessedProofs,
    now: i64,
) -> (r: Result<u64, BridgeError>)
    ensures
        match r {
            Ok(refund) => {
                &&& guarded_revert_check(*old(config), *old(pending), *unlock_store, now) is None
                &&& refund == old(pending).amount
                &&& *final(pending) == (PendingTransfer { consumed: true, ..*old(pending) })
                &&& final(config).same_but_total(*old(config))
                &&& final(config).total_locked == old(config).total_locked - refund
            },
            Err(e) => {
                &&& guarded_revert_check(*old(config), *old(pending), *unlock_store, now)
                    == Some(e)
                &&& *final(config) == *old(config)
                &&& *final(pending) == *old(pending)
            },
        },
{
    let digest = compute_digest(&pending.user, pending.amount, pending.nonce);
    if unlock_store.contains(&digest) {
        return Err(BridgeError::ReplayDetected);
    }
    revert_lock(config, pending, now)
}

/// Announces an emergency recovery: admin-only, and only while no armed,
/// unexpired timelock is already running -- the public warning period cannot
/// be cut short by re-announcing. The timelock is set to `RECOVERY_DELAY`
/// after `now`; no funds move.
pub fn initiate_recovery(config: &mut BridgeConfig, caller: [u8; 32], now: i64) -> (r: Result<
    (),
    BridgeError,
>)
    ensures
        match r {
            Ok(()) => {
                &&& caller@ == old(config).admin@
                &&& (old(config).timelock == 0 || now >= old(config).timelock)
                &&& now + RECOVERY_DELAY <= i64::MAX
                &&& final(config).same_but_timelock(*old(config))
                &&& final(config).timelock == now + RECOVERY_DELAY
            },
            Err(e) => {
                &&& *final(config) == *old(config)
                &&& if caller@ != old(config).admin@ {
                    e == BridgeError::Unauthorized
                } else if old(config).timelock != 0 && now < old(config).timelock {
                    e == BridgeError::TimelockNotExpired
                } else {
                    e == BridgeError::ArithmeticOverflow && now + RECOVERY_DELAY > i64::MAX
                }
            },
        },
{
    if !crate::bytes::bytes32_eq(&caller, &config.admin) {
        return Err(BridgeError::Unauthorized);
    }
    if config.timelock != 0 && now < config.timelock {
        return Err(BridgeError::TimelockNotExpired);
    }
    match now.checked_add(RECOVERY_DELAY) {
        Some(t) => {
            config.timelock = t;
            Ok(())
        },
        None => Err(BridgeError::ArithmeticOverflow),
    }
}

/// Which error a recovery execution is rejected with, if any; the checks
/// apply in this order.
pub open spec fn recovery_check(c: BridgeConfig, caller: Seq<u8>, amount: u64, now: i64) -> Option<
    BridgeError,
> {
    if caller != c.admin@ {
        Some(BridgeError::Unauthorized)
    } else if c.timelock == 0 || now < c.timelock {
        Some(BridgeError::TimelockNotExpired)
    } else if amount > c.total_locked {
        Some(BridgeError::ArithmeticUnderflow)
    } else {
        None
    }
}

/// Executes an announced recovery: admin-only, and only once the timelock
/// has been set and has expired. On success the timelock is cleared, the
/// locked total falls by exactly `amount` -- recovered funds count in the
/// custody accounting like any other withdrawal, with checked arithmetic --
/// and the caller then moves `amount` from bridge custody to the `recovery`
/// destination. On error nothing changes.
pub fn execute_recovery(
    config: &mut BridgeConfig,
    caller: [u8; 32],
    amount: u64,
    recovery: [u8; 32],
    now: i64,
) -> (r: Result<(u64, [u8; 32]), BridgeError>)
    ensures
        match r {
            Ok((moved, to)) => {
                &&& recovery_check(*old(config), caller@, amount, now) is None
                &&& moved == amount
                &&& to == recovery
                &&& final(config).admin == old(config).admin
                &&& final(config).paused == old(config).paused
                &&& final(config).max_transfer_amount == old(config).max_transfer_amount
                &&& final(config).validators@ == old(config).validators@
                &&& final(config).timelock == 0
                &&& final(config).total_locked == old(config).total_locked - amount
            },
            Err(e) => {
                &&& recovery_check(*old(config), caller@, amount, now) == Some(e)
                &&& *final(config) == *old(config)
            },
        },
{
    if !crate::bytes::bytes32_eq(&caller, &config.admin) {
        return Err(BridgeError::Unauthorized);
    }
    if config.timelock == 0 || now < config.timelock {
        return Err(BridgeError::TimelockNotExpired);
    }
    let new_total = match config.total_locked.checked_sub(amount) {
        Some(t) => t,
        None => {
            return Err(BridgeError::ArithmeticUnderflow);
        },
    };
    config.total_locked = new_total;
    config.timelock = 0;
    Ok((amount, recovery))
}

} // verus!

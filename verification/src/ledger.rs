use vstd::prelude::*;
use crate::bytes::{bytes32_eq, vec_u8_eq};
use crate::errors::BridgeError;
use crate::threshold::seq_views;

verus! {

/// Smallest admissible validator set.
pub const MIN_VALIDATORS: usize = 5;

/// No two keys in the set are the same.
pub open spec fn distinct_keys(keys: Seq<Seq<u8>>) -> bool {
    forall|i: int, j: int| 0 <= i < j < keys.len() ==> keys[i] != keys[j]
}

/// A quorum pool: at least [`MIN_VALIDATORS`] distinct public keys.
pub open spec fn valid_validator_set(keys: Seq<Seq<u8>>) -> bool {
    keys.len() >= MIN_VALIDATORS && distinct_keys(keys)
}

/// The bridge ledger: admin identity, pause flag, per-lock cap, the running
/// locked total, the recovery timelock (0 when unset) and the validator set.
/// One per deployed bridge instance; every operation mutates it in place.
#[derive(Clone)]
pub struct BridgeConfig {
    pub admin: [u8; 32],
    pub paused: bool,
    pub max_transfer_amount: u64,
    pub total_locked: u64,
    pub timelock: i64,
    pub validators: Vec<Vec<u8>>,
}

impl BridgeConfig {
    /// The ledger's invariant: its validator set stays admissible.
    pub open spec fn wf(self) -> bool {
        valid_validator_set(seq_views(self.validators@))
    }

    /// All fields but the validator set agree.
    pub open spec fn same_but_validators(self, other: BridgeConfig) -> bool {
        self.admin == other.admin
            && self.paused == other.paused
            && self.max_transfer_amount == other.max_transfer_amount
            && self.total_locked == other.total_locked
            && self.timelock == other.timelock
    }

    /// All fields but the pause flag agree.
    pub open spec fn same_but_paused(self, other: BridgeConfig) -> bool {
        self.admin == other.admin
            && self.max_transfer_amount == other.max_transfer_amount
            && self.total_locked == other.total_locked
            && self.timelock == other.timelock
            && self.validators@ == other.validators@
    }

    /// All fields but the locked total agree.
    pub open spec fn same_but_total(self, other: BridgeConfig) -> bool {
        self.admin == other.admin
            && self.paused == other.paused
            && self.max_transfer_amount == other.max_transfer_amount
            && self.timelock == other.timelock
            && self.validators@ == other.validators@
    }

    /// All fields but the timelock agree.
    pub open spec fn same_but_timelock(self, other: BridgeConfig) -> bool {
        self.admin == other.admin
            && self.paused == other.paused
            && self.max_transfer_amount == other.max_transfer_amount
            && self.total_locked == other.total_locked
            && self.validators@ == other.validators@
    }
}

/// Checks that `keys` form an admissible validator set: enough of them, all
/// distinct.
pub fn check_validator_set(keys: &Vec<Vec<u8>>) -> (r: bool)
    ensures
        r == valid_validator_set(seq_views(keys@)),
{
    let ghost ks = seq_views(keys@);
    if keys.len() < MIN_VALIDATORS {
        return false;
    }
    let mut i: usize = 0;
    while i < keys.len()
        invariant
            i <= keys@.len(),
            ks == seq_views(keys@),
            ks.len() == keys@.len(),
            forall|p: int, q: int| 0 <= p < q < i ==> ks[p] != ks[q],
            keys@.len() >= MIN_VALIDATORS,
        decreases keys@.len() - i,
    {
        let mut j: usize = 0;
        while j < i
            invariant
                j <= i < keys@.len(),
                ks == seq_views(keys@),
                ks.len() == keys@.len(),
                forall|p: int| 0 <= p < j ==> ks[p] != ks[i as int],
            decreases i - j,
        {
            proof {
                assert(ks[j as int] == keys@[j as int]@);
                assert(ks[i as int] == keys@[i as int]@);
            }
            if vec_u8_eq(&keys[j], &keys[i]) {
                return false;
            }
            j += 1;
        }
        i += 1;
    }
    true
}

/// Creates the ledger of a new bridge instance: unpaused, nothing locked, no
/// recovery pending. A validator set that is too small or holds a repeated
/// key is rejected with `InvalidValidatorSet`.
pub fn initialize(admin: [u8; 32], max_transfer_amount: u64, validators: Vec<Vec<u8>>) -> (r: Result<
    BridgeConfig,
    BridgeError,
>)
    ensures
        match r {
            Ok(c) => valid_validator_set(seq_views(validators@)) && c.wf() && c.admin == admin
                && !c.paused && c.max_transfer_amount == max_transfer_amount
                && c.total_locked == 0 && c.timelock == 0 && c.validators@ == validators@,
            Err(e) => e == BridgeError::InvalidValidatorSet
                && !valid_validator_set(seq_views(validators@)),
        },
{
    if !check_validator_set(&validators) {
        return Err(BridgeError::InvalidValidatorSet);
    }
    Ok(BridgeConfig {
        admin,
        paused: false,
        max_transfer_amount,
        total_locked: 0,
        timelock: 0,
        validators,
    })
}

/// Replaces the whole validator set, admin-only and effective immediately.
pub fn update_validators(config: &mut BridgeConfig, caller: [u8; 32], new_validators: Vec<Vec<u8>>) -> (r: Result<
    (),
    BridgeError,
>)
    ensures
        match r {
            Ok(()) => caller@ == old(config).admin@
                && valid_validator_set(seq_views(new_validators@))
                && final(config).same_but_validators(*old(config))
                && final(config).validators@ == new_validators@ && final(config).wf(),
            Err(e) => *final(config) == *old(config) && if caller@ != old(config).admin@ {
                e == BridgeError::Unauthorized
            } else {
                e == BridgeError::InvalidValidatorSet
                    && !valid_validator_set(seq_views(new_validators@))
            },
        },
{
    if !bytes32_eq(&caller, &config.admin) {
        return Err(BridgeError::Unauthorized);
    }
    if !check_validator_set(&new_validators) {
        return Err(BridgeError::InvalidValidatorSet);
    }
    config.validators = new_validators;
    Ok(())
}

/// Halts lock and unlock; admin-only.
pub fn pause_bridge(config: &mut BridgeConfig, caller: [u8; 32]) -> (r: Result<(), BridgeError>)
    ensures
        r is Ok <==> caller@ == old(config).admin@,
        r is Ok ==> final(config).same_but_paused(*old(config)) && final(config).paused,
        r is Err ==> *final(config) == *old(config) && r == Err::<(), BridgeError>(
            BridgeError::Unauthorized,
        ),
{
    if !bytes32_eq(&caller, &config.admin) {
        return Err(BridgeError::Unauthorized);
    }
    config.paused = true;
    Ok(())
}

/// Lifts the pause; admin-only.
pub fn unpause_bridge(config: &mut BridgeConfig, caller: [u8; 32]) -> (r: Result<(), BridgeError>)
    ensures
        r is Ok <==> caller@ == old(config).admin@,
        r is Ok ==> final(config).same_but_paused(*old(config)) && !final(config).paused,
        r is Err ==> *final(config) == *old(config) && r == Err::<(), BridgeError>(
            BridgeError::Unauthorized,
        ),
{
    if !bytes32_eq(&caller, &config.admin) {
        return Err(BridgeError::Unauthorized);
    }
    config.paused = false;
    Ok(())
}

/// Raises the locked total by `amount` with checked arithmetic: wrapping
/// would corrupt the custody accounting, so it is rejected instead.
pub fn add_locked(config: &mut BridgeConfig, amount: u64) -> (r: Result<(), BridgeError>)
    ensures
        r is Ok <==> old(config).total_locked + amount <= u64::MAX,
        r is Ok ==> final(config).same_but_total(*old(config))
            && final(config).total_locked == old(config).total_locked + amount,
        r is Err ==> *final(config) == *old(config) && r == Err::<(), BridgeError>(
            BridgeError::ArithmeticOverflow,
        ),
{
    match config.total_locked.checked_add(amount) {
        Some(t) => {
            config.total_locked = t;
            Ok(())
        },
        None => Err(BridgeError::ArithmeticOverflow),
    }
}

/// Lowers the locked total by `amount` with checked arithmetic: a
/// subtraction exceeding prior additions is rejected, never wrapped.
pub fn subtract_locked(config: &mut BridgeConfig, amount: u64) -> (r: Result<(), BridgeError>)
    ensures
        r is Ok <==> amount <= old(config).total_locked,
        r is Ok ==> final(config).same_but_total(*old(config))
            && final(config).total_locked == old(config).total_locked - amount,
        r is Err ==> *final(config) == *old(config) && r == Err::<(), BridgeError>(
            BridgeError::ArithmeticUnderflow,
        ),
{
    match config.total_locked.checked_sub(amount) {
        Some(t) => {
            config.total_locked = t;
            Ok(())
        },
        None => Err(BridgeError::ArithmeticUnderflow),
    }
}

/// Reads the running locked total.
pub fn get_total_locked(config: &BridgeConfig) -> (r: u64)
    ensures
        r == config.total_locked,
{
    config.total_locked
}

} // verus!

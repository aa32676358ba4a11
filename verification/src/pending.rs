use vstd::prelude::*;
use crate::errors::BridgeError;

verus! {

/// Grace window between a lock and the moment its refund becomes available,
/// in the same time units as the caller's clock.
pub const GRACE_WINDOW: i64 = 300;

/// One record per in-flight lock, keyed by its nonce: who locked, how much,
/// and from when on the funds may be reclaimed if the counterpart release
/// never happens. `consumed` marks a record whose refund was already taken;
/// deleting consumed records is the storage collaborator's job.
#[derive(Clone)]
pub struct PendingTransfer {
    pub user: [u8; 32],
    pub amount: u64,
    pub nonce: u64,
    pub deadline: i64,
    pub consumed: bool,
}

impl PendingTransfer {
    /// Opens the record of a fresh lock, due `GRACE_WINDOW` after `now`. A
    /// deadline that would not fit the clock's range is rejected.
    pub fn create(user: [u8; 32], amount: u64, nonce: u64, now: i64) -> (r: Result<
        PendingTransfer,
        BridgeError,
    >)
        ensures
            match r {
                Ok(p) => now + GRACE_WINDOW <= i64::MAX && p.user == user && p.amount == amount
                    && p.nonce == nonce && p.deadline == now + GRACE_WINDOW && !p.consumed,
                Err(e) => e == BridgeError::ArithmeticOverflow && now + GRACE_WINDOW > i64::MAX,
            },
    {
        match now.checked_add(GRACE_WINDOW) {
            Some(deadline) => Ok(PendingTransfer { user, amount, nonce, deadline, consumed: false }),
            None => Err(BridgeError::ArithmeticOverflow),
        }
    }

    /// Closes the record for a refund. It succeeds exactly once, and only
    /// from the deadline on: before it the caller gets `DeadlineNotExpired`,
    /// and a record already consumed is refused as a replay. On success the
    /// returned amount is owed back to the locking party.
    pub fn close(&mut self, now: i64) -> (r: Result<u64, BridgeError>)
        ensures
            r is Ok <==> !old(self).consumed && now >= old(self).deadline,
            r is Ok ==> r == Ok::<u64, BridgeError>(old(self).amount)
                && *final(self) == (PendingTransfer { consumed: true, ..*old(self) }),
            r is Err ==> *final(self) == *old(self) && if old(self).consumed {
                r == Err::<u64, BridgeError>(BridgeError::ReplayDetected)
            } else {
                r == Err::<u64, BridgeError>(BridgeError::DeadlineNotExpired)
            },
    {
        if self.consumed {
            return Err(BridgeError::ReplayDetected);
        }
        if now < self.deadline {
            return Err(BridgeError::DeadlineNotExpired);
        }
        self.consumed = true;
        Ok(self.amount)
    }
}

} // verus!

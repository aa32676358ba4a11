use vstd::prelude::*;

verus! {

/// Why a bridge operation was rejected. Every error leaves the bridge state
/// exactly as it was: operations are all-or-nothing.
#[derive(Clone, Copy, Debug, PartialEq, Eq, Structural)]
pub enum BridgeError {
    /// A zero amount was supplied.
    InvalidAmount,
    /// A single lock asked for more than the configured cap.
    AmountExceedsCap,
    /// The bridge is paused; lock and unlock are rejected.
    Paused,
    /// An admin-only entry point was called by someone else.
    Unauthorized,
    /// A validator set with fewer than the required distinct keys.
    InvalidValidatorSet,
    /// The digest did not match the claimed parameters, or too few distinct
    /// validators signed it.
    VerificationFailed,
    /// The proof fingerprint was already recorded.
    ReplayDetected,
    /// The claimed height is too far beyond the current height.
    StaleProof,
    /// A refund was requested before the pending transfer's deadline.
    DeadlineNotExpired,
    /// Recovery was attempted before its timelock elapsed or was announced.
    TimelockNotExpired,
    /// An addition on a counter or timestamp would wrap.
    ArithmeticOverflow,
    /// A subtraction from the locked total would wrap.
    ArithmeticUnderflow,
}

} // verus!

//! Trust core of a cross-chain token bridge.
//!
//! The library decides whether funds may be locked on one side of the bridge
//! and released on the other: threshold signature verification gates every
//! release, a replay store rejects duplicate proof fingerprints, pending
//! transfers carry a refund deadline, and an admin-gated timelocked recovery
//! path exists for emergencies. Custody of the actual tokens, persistent
//! storage and the clock are external collaborators: callers hand in the
//! current time and height and perform the custody transfer that each
//! successful operation requests, all-or-nothing with the state change.

pub mod bytes;
pub mod controller;
pub mod crypto;
pub mod errors;
pub mod laws;
pub mod ledger;
pub mod pending;
pub mod proof_store;
pub mod threshold;

//! A time-locked value-custody state machine.
//!
//! A party deposits a fixed amount of a designated asset ("ping") and may
//! reclaim it ("pong") only after a configured lock duration has elapsed,
//! and only once per cycle. An owner may pause the mechanism, retune its
//! parameters, and parties may extend their own locks.
//!
//! The hosting environment (caller identities, logical time, custody
//! transfers, event delivery) stays outside this crate: every operation
//! takes the caller identity and the current logical time as plain values
//! and reports the payout it owes, so the whole state machine is verified.

pub mod asset;
pub mod errors;
pub mod laws;
pub mod ledger;
pub mod machine;

//! Verified accounting for a token staking pool and the token it stakes:
//! time-proportional yield, accrual checkpoints, stake ledger transitions,
//! supply control and authority gating.
//!
//! Every operation is a pure state transition over plain records. Work that
//! only the host can do (moving tokens, reading the clock, emitting events)
//! is handed back to the caller as values: a ledger call to perform and an
//! event to publish.

pub mod address;
pub mod error;
pub mod reward;
pub mod staking;
pub mod token;

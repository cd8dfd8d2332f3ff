//! A time-locked token staking core.
//!
//! A user deposits tokens into a pooled escrow vault for a fixed duration;
//! at or after maturity the same user may withdraw the principal together
//! with a duration-dependent reward. This crate holds the staking state
//! machine itself: the stake record, the validation and arithmetic of
//! staking and unstaking, the reward policy, and a pooled-escrow model with
//! its conservation invariant. Moving tokens, allocating record storage and
//! reading the clock are the host's primitives; callers hand this core the
//! current time and apply the transfers it decides on.

pub mod identity;
pub mod laws;
pub mod layout;
pub mod reward;
pub mod pool;
pub mod stake;

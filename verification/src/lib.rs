//! A verified model of an on-chain savings protocol.
//!
//! Users hold concurrent savings plans (instant-access, time-locked,
//! goal-targeted, group-pooled), accrue a rewards-points balance guarded by
//! anti-farming limits, and may have plan principal routed into external
//! yield strategies under a Checks-Effects-Interactions discipline with a
//! reentrancy guard.
//!
//! The whole protocol state is an explicit value, [`contract::NesteraContract`].
//! Host concerns (persistent storage, authorization, events, the clock, and
//! cross-contract calls into yield strategies) are external collaborators:
//! entry points take the current time and the strategies' reported values as
//! plain arguments, and every state transition is specified and verified.

pub mod contract;
pub mod errors;
pub mod fees;
pub mod plans;
pub mod rewards;
pub mod security;
pub mod strategy;

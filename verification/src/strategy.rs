//! Strategy registry and routing records.
//!
//! A strategy is an external, independently deployed contract conforming to
//! a capability interface (deposit, withdraw, harvest, balance). Here it is
//! known by its address identifier, its enabled flag and its risk metadata;
//! its reported values enter the router as plain arguments.

use vstd::prelude::*;

verus! {

/// Registry record for a yield strategy. Strategies are disabled rather
/// than deleted, since historical positions must remain resolvable.
#[derive(Clone, Copy, Debug, PartialEq, Eq, Structural)]
pub struct StrategyInfo {
    /// The strategy contract's address.
    pub address: u64,
    /// Whether new deposits may be routed to it.
    pub enabled: bool,
    /// Risk metadata recorded at registration.
    pub risk_level: u32,
}

/// The record of principal and shares a plan currently has deposited with
/// one external yield strategy; at most one live position per plan.
#[derive(Clone, Copy, Debug, PartialEq, Eq, Structural)]
pub struct StrategyPosition {
    /// The strategy holding the funds.
    pub strategy: u64,
    /// Principal deposited into the strategy and not yet withdrawn.
    pub principal_deposited: i128,
    /// Shares the strategy minted for the deposit.
    pub strategy_shares: i128,
}

/// Which plan a strategy position belongs to.
#[derive(Clone, Copy, Debug, PartialEq, Eq, Structural)]
pub enum StrategyPositionKey {
    /// Position of a time-locked plan.
    Lock(u64),
    /// Position of a group-pooled plan.
    Group(u64),
}

/// Running performance accounting per strategy.
#[derive(Clone, Copy, Debug, PartialEq, Eq, Structural)]
pub struct StrategyPerformance {
    /// Total principal ever routed in.
    pub total_deposited: i128,
    /// Total principal ever withdrawn.
    pub total_withdrawn: i128,
    /// Total yield ever harvested.
    pub total_harvested: i128,
    /// `total_harvested * 10_000 / total_deposited`, clamped to `u32`.
    pub apy_estimate_bps: u32,
}

impl StrategyPerformance {
    /// The all-zero record a strategy starts from.
    pub open spec fn spec_zero() -> StrategyPerformance {
        StrategyPerformance {
            total_deposited: 0,
            total_withdrawn: 0,
            total_harvested: 0,
            apy_estimate_bps: 0,
        }
    }

    /// The all-zero record a strategy starts from.
    pub fn zero() -> (r: StrategyPerformance)
        ensures
            r == StrategyPerformance::spec_zero(),
    {
        StrategyPerformance {
            total_deposited: 0,
            total_withdrawn: 0,
            total_harvested: 0,
            apy_estimate_bps: 0,
        }
    }
}

} // verus!

//! The savings ledger's record types: accounts and the four plan variants.
//!
//! Addresses are modelled as plain integer identifiers; the host's opaque
//! address values are mapped to and from these identifiers at the boundary.

use vstd::prelude::*;

verus! {

/// A user account: the denormalized total balance across the user's plans
/// and the monotonic plan counter that sources new plan identifiers.
#[derive(Clone, Copy, Debug, PartialEq, Eq, Structural)]
pub struct User {
    /// Signed sum of the user's plan contributions, including principal
    /// routed to strategies and not yet withdrawn.
    pub total_balance: i128,
    /// Monotonic count of plans ever created by this account.
    pub savings_count: u64,
}

/// The kind of a savings plan.
#[derive(Clone, Copy, Debug, PartialEq, Eq, Structural)]
pub enum PlanType {
    /// Instant-access savings, balance scoped to the address.
    Flexi,
    /// A fixed amount locked for a fixed duration.
    Lock,
    /// Savings toward a target amount.
    Goal,
    /// A pooled plan with per-member contributions.
    Group,
}

impl PlanType {
    /// A small integer tag, used to build composite storage keys.
    pub open spec fn spec_tag(self) -> int {
        match self {
            PlanType::Flexi => 0,
            PlanType::Lock => 1,
            PlanType::Goal => 2,
            PlanType::Group => 3,
        }
    }

    /// A small integer tag, used to build composite storage keys.
    pub fn tag(self) -> (t: u64)
        ensures
            t == self.spec_tag(),
            t <= 3,
    {
        match self {
            PlanType::Flexi => 0,
            PlanType::Lock => 1,
            PlanType::Goal => 2,
            PlanType::Group => 3,
        }
    }
}

/// A generic savings plan record, created by `create_savings_plan` and
/// keyed by (owner, per-owner plan id).
#[derive(Clone, Copy, Debug, PartialEq, Eq, Structural)]
pub struct SavingsPlan {
    /// Identifier of this plan within its owner's account.
    pub plan_id: u64,
    /// The plan's kind.
    pub plan_type: PlanType,
    /// The plan's balance.
    pub balance: i128,
    /// Creation time, in seconds.
    pub start_time: u64,
    /// Time of the most recent deposit.
    pub last_deposit: u64,
    /// Time of the most recent withdrawal, 0 before the first.
    pub last_withdraw: u64,
    /// Annual interest rate in basis points.
    pub interest_rate: i128,
    /// Whether the plan has completed.
    pub is_completed: bool,
    /// Whether the plan's funds were withdrawn.
    pub is_withdrawn: bool,
}

/// A time-locked plan: a fixed amount, locked at creation, maturing at
/// `start_time + duration`.
#[derive(Clone, Copy, Debug, PartialEq, Eq, Structural)]
pub struct LockSave {
    /// The owning address.
    pub owner: u64,
    /// The locked amount.
    pub amount: i128,
    /// Lock duration in seconds; maturity is `start_time + duration`.
    pub duration: u64,
    /// Creation time, in seconds.
    pub start_time: u64,
    /// Interest rate in basis points configured for this duration tier at
    /// creation (0 where none was configured).
    pub interest_rate: i128,
    /// Whether the locked funds were withdrawn.
    pub is_withdrawn: bool,
}

impl LockSave {
    /// Whether the lock has matured at time `now`.
    pub open spec fn spec_matured(self, now: int) -> bool {
        now >= self.start_time + self.duration
    }
}

/// A goal-targeted plan: completes when the accumulated amount reaches the
/// target.
#[derive(Clone, Copy, Debug, PartialEq, Eq, Structural)]
pub struct GoalSave {
    /// The owning address.
    pub owner: u64,
    /// Caller-chosen label identifier for the goal's name.
    pub goal_name: u64,
    /// The amount the goal aims for.
    pub target_amount: i128,
    /// The amount accumulated so far.
    pub current_amount: i128,
    /// Creation time, in seconds.
    pub start_time: u64,
    /// Whether the goal reached its target.
    pub is_completed: bool,
    /// Whether the accumulated funds were withdrawn.
    pub is_withdrawn: bool,
}

/// A payload for the out-of-band minting/attestation flow: what the
/// administrator signs. The detached ed25519 signature over its serialized
/// form is checked by the host's crypto port; the library checks the
/// validity window and hands back the amount.
#[derive(Clone, Copy, Debug, PartialEq, Eq, Structural)]
pub struct MintPayload {
    /// The address the minted amount is attributed to.
    pub user: u64,
    /// The attested amount.
    pub amount: i128,
    /// When the payload was signed, in seconds.
    pub timestamp: u64,
    /// How long past `timestamp` the signature stays valid, in seconds.
    pub expiry_duration: u64,
}

/// A group-pooled plan. Per-member contributions are kept in the contract
/// state, keyed by (group id, member address).
#[derive(Clone, Debug)]
pub struct GroupSave {
    /// The creating address.
    pub creator: u64,
    /// Display title.
    pub title: String,
    /// Display description.
    pub description: String,
    /// Display category.
    pub category: String,
    /// The amount the pool aims for.
    pub target_amount: i128,
    /// Cadence policy tag for contributions.
    pub contribution_type: u32,
    /// Suggested contribution amount per cadence.
    pub contribution_amount: i128,
    /// Whether anyone may join without an invitation.
    pub is_public: bool,
    /// When contributions open, in seconds.
    pub start_time: u64,
    /// When contributions close, in seconds.
    pub end_time: u64,
    /// The pooled amount accumulated so far.
    pub current_amount: i128,
    /// Whether the pool reached its target.
    pub is_completed: bool,
}

} // verus!

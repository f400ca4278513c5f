//! Error kinds surfaced by the protocol.
//!
//! Every fallible operation returns a typed failure; there is no local
//! recovery. The host is assumed to discard all state effects of a failed
//! transaction, so contracts additionally state, where it holds, that an
//! operation leaves the state unchanged on error.

use vstd::prelude::*;

verus! {

/// Error kinds for the savings, rewards and strategy-routing operations.
#[derive(Clone, Copy, Debug, PartialEq, Eq, Structural)]
pub enum SavingsError {
    /// A non-positive or out-of-range input amount.
    InvalidAmount,
    /// The balance at hand does not cover the requested amount.
    InsufficientBalance,
    /// A checked addition or multiplication would exceed the integer range.
    Overflow,
    /// A checked subtraction would fall below the integer range.
    Underflow,
    /// A nested call tried to re-enter a mutating operation.
    ReentrancyDetected,
    /// The caller is not allowed to perform the operation.
    Unauthorized,
    /// No plan exists under the given identifier.
    PlanNotFound,
    /// The plan has already completed.
    PlanCompleted,
    /// The goal plan has not reached its target yet.
    GoalNotCompleted,
    /// The plan's funds were already withdrawn.
    AlreadyWithdrawn,
    /// No lock plan exists under the given identifier.
    LockNotFound,
    /// No user record exists for the given address.
    UserNotFound,
    /// No strategy is registered under the given address.
    StrategyNotFound,
    /// The strategy is disabled.
    StrategyDisabled,
    /// The strategy returned a non-positive share or token count.
    InvalidStrategyResponse,
    /// The configuration was already initialized.
    ConfigAlreadyInitialized,
    /// A negative interest rate was supplied.
    InvalidInterestRate,
    /// A basis-point rate above the full 10,000 was supplied.
    InvalidFeeBps,
    /// The contract is paused.
    ContractPaused,
    /// An internal precondition did not hold (missing configuration).
    InternalError,
}

/// Error kinds for contract administration.
#[derive(Clone, Copy, Debug, PartialEq, Eq, Structural)]
pub enum ContractError {
    /// The contract was already initialized.
    AlreadyInitialized,
    /// The contract has not been initialized yet.
    NotInitialized,
    /// The detached signature did not verify.
    InvalidSignature,
    /// The signed payload's validity window has passed.
    SignatureExpired,
}

} // verus!

//! The protocol state and its entry points.
//!
//! [`NesteraContract`] holds the whole contract state as an explicit value:
//! what an on-chain deployment keeps in host storage lives here in maps
//! keyed by integer identifiers. Entry points are methods; the host's
//! clock, authorization and cross-contract calls are external, so methods
//! take the current time and the strategies' reported values as arguments,
//! and authorization amounts to comparing caller identifiers.
//!
//! Mutating entry points follow one discipline: refuse work while
//! paused, acquire the reentrancy guard, apply checked effects, release the
//! guard. The strategy router keeps the guard held across the external
//! interaction; see [`crate::security`].

use std::collections::HashMap;

use vstd::prelude::*;

use crate::errors::ContractError;
use crate::errors::SavingsError;
use crate::plans::GoalSave;
use crate::plans::GroupSave;
use crate::plans::LockSave;
use crate::plans::MintPayload;
use crate::plans::PlanType;
use crate::plans::SavingsPlan;
use crate::plans::User;
use crate::rewards::RewardsConfig;
use crate::rewards::UserRewards;
use crate::security::ReentrancyGuard;
use crate::strategy::StrategyInfo;
use crate::strategy::StrategyPerformance;
use crate::strategy::StrategyPosition;
use crate::strategy::StrategyPositionKey;

verus! {

broadcast use vstd::std_specs::hash::group_hash_axioms;

/// Global protocol configuration: treasury routing for harvest fees.
#[derive(Clone, Copy, Debug, PartialEq, Eq, Structural)]
pub struct Config {
    /// The administrator recorded at configuration time.
    pub admin: u64,
    /// The address credited with the protocol's share of harvested yield.
    pub treasury: u64,
    /// The protocol's share of harvested yield, in basis points.
    pub protocol_fee_bps: u32,
}

/// Packs two 64-bit identifiers into one 128-bit storage key.
pub open spec fn spec_pair_key(a: u64, b: u64) -> u128 {
    (a as int * 0x1_0000_0000_0000_0000 + b as int) as u128
}

/// Packs two 64-bit identifiers into one 128-bit storage key.
pub fn pair_key(a: u64, b: u64) -> (k: u128)
    ensures
        k == spec_pair_key(a, b),
{
    (a as u128) * 0x1_0000_0000_0000_0000u128 + (b as u128)
}

/// Law: the packed key identifies its two halves.
pub proof fn lemma_pair_key_injective(a1: u64, b1: u64, a2: u64, b2: u64)
    requires
        spec_pair_key(a1, b1) == spec_pair_key(a2, b2),
    ensures
        a1 == a2,
        b1 == b2,
{
    assert(a1 == a2 && b1 == b2) by (nonlinear_arith)
        requires
            a1 as int * 0x1_0000_0000_0000_0000 + b1 as int == a2 as int * 0x1_0000_0000_0000_0000
                + b2 as int,
            0 <= b1 as int,
            (b1 as int) < 0x1_0000_0000_0000_0000,
            0 <= b2 as int,
            (b2 as int) < 0x1_0000_0000_0000_0000,
            0 <= a1 as int,
            0 <= a2 as int,
    ;
}

/// Law: a router withdrawal takes the smaller of the recorded principal
/// and the reported strategy balance, so the principal that remains after
/// subtracting it is never negative.
pub proof fn lemma_withdraw_never_negative(principal: int, reported: int)
    ensures
        crate::rewards::min_int(principal, reported) <= principal,
        principal - crate::rewards::min_int(principal, reported) >= 0,
{
}

/// The whole protocol state. A host driver clones it before a multi-step
/// transaction and restores the copy on failure, standing in for the
/// host's atomic revert.
#[derive(Clone)]
pub struct NesteraContract {
    /// Whether `initialize` has run.
    pub initialized: bool,
    /// The administrator address, once one is recorded.
    pub admin: Option<u64>,
    /// Whether mutating entry points are paused.
    pub paused: bool,
    /// The reentrancy guard for mutating entry points.
    pub guard: ReentrancyGuard,
    /// Treasury configuration, once `initialize_config` has run.
    pub config: Option<Config>,
    /// Fee charged on breaking a lock before maturity, in basis points.
    pub early_break_fee_bps: u32,
    /// The platform fee recorded by `set_protocol_fee_bps`.
    pub platform_fee_bps: u32,
    /// Recipient address for platform fees, if set.
    pub fee_recipient: Option<u64>,
    /// Annual rate for instant-access balances, in basis points.
    pub flexi_rate: i128,
    /// Annual rate for goal plans, in basis points.
    pub goal_rate: i128,
    /// Annual rate for group plans, in basis points.
    pub group_rate: i128,
    /// Rate per lock duration tier, keyed by duration in days.
    pub lock_rates: HashMap<u64, i128>,
    /// User accounts, keyed by address.
    pub users: HashMap<u64, User>,
    /// Instant-access balances, keyed by address.
    pub flexi_balances: HashMap<u64, i128>,
    /// Generic plan records, keyed by (owner, per-owner plan id).
    pub savings_plans: HashMap<u128, SavingsPlan>,
    /// Lock plans, keyed by lock id.
    pub lock_saves: HashMap<u64, LockSave>,
    /// Source of fresh lock ids; ids start at 1.
    pub next_lock_id: u64,
    /// Lock ids per owner.
    pub user_locks: HashMap<u64, Vec<u64>>,
    /// Goal plans, keyed by goal id.
    pub goal_saves: HashMap<u64, GoalSave>,
    /// Source of fresh goal ids; ids start at 1.
    pub next_goal_id: u64,
    /// Goal ids per owner.
    pub user_goals: HashMap<u64, Vec<u64>>,
    /// Group plans, keyed by group id.
    pub group_saves: HashMap<u64, GroupSave>,
    /// Source of fresh group ids; ids start at 1.
    pub next_group_id: u64,
    /// Per-member contributions, keyed by (group id, member address).
    pub group_contributions: HashMap<u128, i128>,
    /// Rewards engine tunables, once initialized.
    pub rewards_config: Option<RewardsConfig>,
    /// Rewards ledgers, keyed by address.
    pub user_rewards: HashMap<u64, UserRewards>,
    /// Registered strategies, keyed by strategy address.
    pub strategies: HashMap<u64, StrategyInfo>,
    /// Registration order of strategy addresses.
    pub strategy_list: Vec<u64>,
    /// Strategy positions of lock plans, keyed by lock id.
    pub lock_positions: HashMap<u64, StrategyPosition>,
    /// Strategy positions of group plans, keyed by group id.
    pub group_positions: HashMap<u64, StrategyPosition>,
    /// Running principal routed to each strategy, keyed by address.
    pub strategy_principal: HashMap<u64, i128>,
    /// Performance accounting per strategy, keyed by address.
    pub strategy_performance: HashMap<u64, StrategyPerformance>,
    /// Users' share of harvested yield per strategy, keyed by address.
    pub strategy_yield: HashMap<u64, i128>,
    /// Protocol-level balances (the treasury's harvest fees), keyed by
    /// address.
    pub protocol_balances: HashMap<u64, i128>,
    /// Plans shut down by an emergency withdrawal, keyed by
    /// (plan-type tag, plan id).
    pub disabled_plans: HashMap<u128, bool>,
}

impl NesteraContract {
    /// The instant-access balance of an address; 0 without a record.
    pub open spec fn spec_flexi_of(self, user: u64) -> int {
        if self.flexi_balances@.contains_key(user) {
            self.flexi_balances@[user] as int
        } else {
            0
        }
    }

    /// The rewards ledger of an address; fresh without a record.
    pub open spec fn spec_rewards_of(self, user: u64) -> UserRewards {
        if self.user_rewards@.contains_key(user) {
            self.user_rewards@[user]
        } else {
            UserRewards::spec_new()
        }
    }

    /// The running principal routed to a strategy; 0 without a record.
    pub open spec fn spec_principal_of(self, strategy: u64) -> int {
        if self.strategy_principal@.contains_key(strategy) {
            self.strategy_principal@[strategy] as int
        } else {
            0
        }
    }

    /// The performance record of a strategy; all zero without a record.
    pub open spec fn spec_performance_of(self, strategy: u64) -> StrategyPerformance {
        if self.strategy_performance@.contains_key(strategy) {
            self.strategy_performance@[strategy]
        } else {
            StrategyPerformance::spec_zero()
        }
    }

    /// The users' yield pool of a strategy; 0 without a record.
    pub open spec fn spec_yield_of(self, strategy: u64) -> int {
        if self.strategy_yield@.contains_key(strategy) {
            self.strategy_yield@[strategy] as int
        } else {
            0
        }
    }

    /// The protocol-level balance of an address; 0 without a record.
    pub open spec fn spec_protocol_balance_of(self, addr: u64) -> int {
        if self.protocol_balances@.contains_key(addr) {
            self.protocol_balances@[addr] as int
        } else {
            0
        }
    }

    /// The strategy position stored under a position key, if any.
    pub open spec fn spec_position_of(self, key: StrategyPositionKey) -> Option<StrategyPosition> {
        match key {
            StrategyPositionKey::Lock(id) => if self.lock_positions@.contains_key(id) {
                Some(self.lock_positions@[id])
            } else {
                None
            },
            StrategyPositionKey::Group(id) => if self.group_positions@.contains_key(id) {
                Some(self.group_positions@[id])
            } else {
                None
            },
        }
    }

    /// Whether ordinary mutating entry points may run: not paused and the
    /// reentrancy guard free.
    pub open spec fn spec_open_for(self) -> bool {
        !self.paused && !self.guard.locked
    }

    /// The ledger's non-negativity invariant: no stored balance, locked
    /// amount, accumulated goal amount, member contribution, position
    /// principal, running strategy principal, yield pool or treasury
    /// balance is ever negative. Every mutating entry point preserves it:
    /// deposits add positive amounts, withdrawals are bounded by what is
    /// at hand, and the router's floors keep its accounting at zero or
    /// above.
    pub open spec fn spec_balances_nonnegative(self) -> bool {
        &&& forall|u: u64| #[trigger]
            self.flexi_balances@.contains_key(u) ==> self.flexi_balances@[u] >= 0
        &&& forall|id: u64| #[trigger]
            self.lock_saves@.contains_key(id) ==> self.lock_saves@[id].amount >= 0
        &&& forall|id: u64| #[trigger]
            self.goal_saves@.contains_key(id) ==> self.goal_saves@[id].current_amount >= 0
        &&& forall|k: u128| #[trigger]
            self.group_contributions@.contains_key(k) ==> self.group_contributions@[k] >= 0
        &&& forall|id: u64| #[trigger]
            self.lock_positions@.contains_key(id) ==> self.lock_positions@[id].principal_deposited
                >= 0
        &&& forall|id: u64| #[trigger]
            self.group_positions@.contains_key(id) ==> self.group_positions@[id].principal_deposited
                >= 0
        &&& forall|s: u64| #[trigger]
            self.strategy_principal@.contains_key(s) ==> self.strategy_principal@[s] >= 0
        &&& forall|s: u64| #[trigger]
            self.strategy_yield@.contains_key(s) ==> self.strategy_yield@[s] >= 0
        &&& forall|a: u64| #[trigger]
            self.protocol_balances@.contains_key(a) ==> self.protocol_balances@[a] >= 0
    }

    /// A fresh, uninitialized protocol state.
    pub fn new() -> (c: NesteraContract)
        ensures
            c.spec_balances_nonnegative(),
            !c.initialized,
            c.admin is None,
            !c.paused,
            !c.guard.locked,
            c.config is None,
            c.rewards_config is None,
            c.fee_recipient is None,
            c.early_break_fee_bps == 0,
            c.platform_fee_bps == 0,
            c.flexi_rate == 0,
            c.goal_rate == 0,
            c.group_rate == 0,
            c.next_lock_id == 1,
            c.next_goal_id == 1,
            c.next_group_id == 1,
            c.strategy_list@ =~= Seq::<u64>::empty(),
            c.lock_rates@ =~= Map::<u64, i128>::empty(),
            c.users@ =~= Map::<u64, User>::empty(),
            c.flexi_balances@ =~= Map::<u64, i128>::empty(),
            c.savings_plans@ =~= Map::<u128, SavingsPlan>::empty(),
            c.lock_saves@ =~= Map::<u64, LockSave>::empty(),
            c.user_locks@ =~= Map::<u64, Vec<u64>>::empty(),
            c.goal_saves@ =~= Map::<u64, GoalSave>::empty(),
            c.user_goals@ =~= Map::<u64, Vec<u64>>::empty(),
            c.group_saves@ =~= Map::<u64, GroupSave>::empty(),
            c.group_contributions@ =~= Map::<u128, i128>::empty(),
            c.user_rewards@ =~= Map::<u64, UserRewards>::empty(),
            c.strategies@ =~= Map::<u64, StrategyInfo>::empty(),
            c.lock_positions@ =~= Map::<u64, StrategyPosition>::empty(),
            c.group_positions@ =~= Map::<u64, StrategyPosition>::empty(),
            c.strategy_principal@ =~= Map::<u64, i128>::empty(),
            c.strategy_performance@ =~= Map::<u64, StrategyPerformance>::empty(),
            c.strategy_yield@ =~= Map::<u64, i128>::empty(),
            c.protocol_balances@ =~= Map::<u64, i128>::empty(),
            c.disabled_plans@ =~= Map::<u128, bool>::empty(),
    {
        NesteraContract {
            initialized: false,
            admin: None,
            paused: false,
            guard: ReentrancyGuard::new(),
            config: None,
            early_break_fee_bps: 0,
            platform_fee_bps: 0,
            fee_recipient: None,
            flexi_rate: 0,
            goal_rate: 0,
            group_rate: 0,
            lock_rates: HashMap::new(),
            users: HashMap::new(),
            flexi_balances: HashMap::new(),
            savings_plans: HashMap::new(),
            lock_saves: HashMap::new(),
            next_lock_id: 1,
            user_locks: HashMap::new(),
            goal_saves: HashMap::new(),
            next_goal_id: 1,
            user_goals: HashMap::new(),
            group_saves: HashMap::new(),
            next_group_id: 1,
            group_contributions: HashMap::new(),
            rewards_config: None,
            user_rewards: HashMap::new(),
            strategies: HashMap::new(),
            strategy_list: Vec::new(),
            lock_positions: HashMap::new(),
            group_positions: HashMap::new(),
            strategy_principal: HashMap::new(),
            strategy_performance: HashMap::new(),
            strategy_yield: HashMap::new(),
            protocol_balances: HashMap::new(),
            disabled_plans: HashMap::new(),
        }
    }

    /// Records the administrator and opens the contract. Fails with
    /// `AlreadyInitialized` on a second call. Authorization of the admin is
    /// the host's concern.
    pub fn initialize(&mut self, admin: u64) -> (r: Result<(), ContractError>)
        ensures
            old(self).spec_balances_nonnegative() ==> final(self).spec_balances_nonnegative(),
            old(self).initialized ==> r == Err::<(), ContractError>(
                ContractError::AlreadyInitialized,
            ) && *final(self) == *old(self),
            !old(self).initialized ==> r == Ok::<(), ContractError>(()) && *final(self)
                == (NesteraContract {
                initialized: true,
                admin: Some(admin),
                paused: false,
                ..*old(self)
            }),
    {
        if self.initialized {
            return Err(ContractError::AlreadyInitialized);
        }
        self.initialized = true;
        self.admin = Some(admin);
        self.paused = false;
        Ok(())
    }

    /// Whether `initialize` has run.
    pub fn is_initialized(&self) -> (r: bool)
        ensures
            r == self.initialized,
    {
        self.initialized
    }

    /// Whether mutating entry points are paused.
    pub fn is_paused(&self) -> (r: bool)
        ensures
            r == self.paused,
    {
        self.paused
    }

    /// Whether an account record exists for the address.
    pub fn user_exists(&self, user: u64) -> (r: bool)
        ensures
            r == self.users@.contains_key(user),
    {
        self.users.contains_key(&user)
    }

    /// The account record of an address, or `UserNotFound`.
    pub fn get_user(&self, user: u64) -> (r: Result<User, SavingsError>)
        ensures
            self.users@.contains_key(user) ==> r == Ok::<User, SavingsError>(self.users@[user]),
            !self.users@.contains_key(user) ==> r == Err::<User, SavingsError>(
                SavingsError::UserNotFound,
            ),
    {
        match self.users.get(&user) {
            Some(u) => Ok(*u),
            None => Err(SavingsError::UserNotFound),
        }
    }

    /// Creates a fresh account record for the address. Fails while paused;
    /// a second initialization of the same address is refused.
    pub fn initialize_user(&mut self, user: u64) -> (r: Result<(), SavingsError>)
        ensures
            old(self).spec_balances_nonnegative() ==> final(self).spec_balances_nonnegative(),
            old(self).paused ==> r == Err::<(), SavingsError>(SavingsError::ContractPaused) && *final(self) == *old(self),
            !old(self).paused && old(self).users@.contains_key(user) ==> r == Err::<(), SavingsError>(SavingsError::InternalError) && *final(self) == *old(self),
            !old(self).paused && !old(self).users@.contains_key(user) ==> r == Ok::<(), SavingsError>(()) && *final(self) == (NesteraContract {
                users: final(self).users,
                ..*old(self)
            }) && final(self).users@ == old(self).users@.insert(
                user,
                User { total_balance: 0, savings_count: 0 },
            ),
    {
        if self.paused {
            return Err(SavingsError::ContractPaused);
        }
        if self.users.contains_key(&user) {
            return Err(SavingsError::InternalError);
        }
        self.users.insert(user, User { total_balance: 0, savings_count: 0 });
        Ok(())
    }

    /// Initializes a user and returns the fresh record: the entry point
    /// that backs first contact with an account.
    pub fn init_user(&mut self, user: u64) -> (r: Result<User, SavingsError>)
        ensures
            old(self).spec_balances_nonnegative() ==> final(self).spec_balances_nonnegative(),
            old(self).paused ==> r == Err::<User, SavingsError>(SavingsError::ContractPaused)
                && *final(self) == *old(self),
            !old(self).paused && old(self).users@.contains_key(user) ==> r == Err::<
                User,
                SavingsError,
            >(SavingsError::InternalError) && *final(self) == *old(self),
            !old(self).paused && !old(self).users@.contains_key(user) ==> r == Ok::<
                User,
                SavingsError,
            >(User { total_balance: 0, savings_count: 0 }) && final(self).users@ == old(self).users@.insert(user, User { total_balance: 0, savings_count: 0 }) && *final(self)
                == (NesteraContract { users: final(self).users, ..*old(self) }),
    {
        match self.initialize_user(user) {
            Ok(()) => self.get_user(user),
            Err(e) => Err(e),
        }
    }

    /// The instant-access balance of an address; 0 without a record.
    pub fn get_flexi_balance(&self, user: u64) -> (r: i128)
        ensures
            r == self.spec_flexi_of(user),
    {
        match self.flexi_balances.get(&user) {
            Some(b) => *b,
            None => 0,
        }
    }

    /// The rewards ledger of an address; fresh without a record.
    pub fn get_user_rewards(&self, user: u64) -> (r: UserRewards)
        ensures
            r == self.spec_rewards_of(user),
    {
        match self.user_rewards.get(&user) {
            Some(l) => *l,
            None => UserRewards::new(),
        }
    }

    /// Acquires the transaction's reentrancy guard; `ReentrancyDetected`
    /// while it is already held.
    pub fn acquire_reentrancy_guard(&mut self) -> (r: Result<(), SavingsError>)
        ensures
            old(self).spec_balances_nonnegative() ==> final(self).spec_balances_nonnegative(),
            old(self).guard.locked ==> r == Err::<(), SavingsError>(
                SavingsError::ReentrancyDetected,
            ) && *final(self) == *old(self),
            !old(self).guard.locked ==> r == Ok::<(), SavingsError>(()) && *final(self)
                == (NesteraContract {
                guard: ReentrancyGuard { locked: true },
                ..*old(self)
            }),
    {
        self.guard.acquire()
    }

    /// Releases the reentrancy guard unconditionally.
    pub fn release_reentrancy_guard(&mut self)
        ensures
            old(self).spec_balances_nonnegative() ==> final(self).spec_balances_nonnegative(),
            *final(self) == (NesteraContract { guard: ReentrancyGuard { locked: false }, ..*old(self) }),
    {
        self.guard.release()
    }

    /// The rewards ledger after a deposit is scored against the stored
    /// configuration: unchanged where no configuration is stored.
    pub open spec fn spec_rewards_after_deposit(self, user: u64, amount: int, now: int) -> Map<
        u64,
        UserRewards,
    > {
        match self.rewards_config {
            Some(cfg) => self.user_rewards@.insert(
                user,
                crate::rewards::spec_award(self.spec_rewards_of(user), cfg, amount, now, 0),
            ),
            None => self.user_rewards@,
        }
    }

    /// Deposits into the address's instant-access balance, mirroring the
    /// delta into the account's total balance and scoring the deposit with
    /// the rewards engine. Arithmetic is overflow-checked; a failure leaves
    /// the state unchanged.
    pub fn deposit_flexi(&mut self, user: u64, amount: i128, now: u64) -> (r: Result<
        (),
        SavingsError,
    >)
        ensures
            old(self).spec_balances_nonnegative() ==> final(self).spec_balances_nonnegative(),
            old(self).paused ==> r == Err::<(), SavingsError>(SavingsError::ContractPaused)
                && *final(self) == *old(self),
            !old(self).paused && old(self).guard.locked ==> r == Err::<(), SavingsError>(
                SavingsError::ReentrancyDetected,
            ) && *final(self) == *old(self),
            old(self).spec_open_for() && amount <= 0 ==> r == Err::<(), SavingsError>(
                SavingsError::InvalidAmount,
            ) && *final(self) == *old(self),
            old(self).spec_open_for() && amount > 0 && old(self).spec_flexi_of(user) + amount
                > i128::MAX ==> r == Err::<(), SavingsError>(SavingsError::Overflow) && *final(self)
                == *old(self),
            old(self).spec_open_for() && amount > 0 && old(self).spec_flexi_of(user) + amount
                <= i128::MAX && !old(self).users@.contains_key(user) ==> r == Err::<
                (),
                SavingsError,
            >(SavingsError::UserNotFound) && *final(self) == *old(self),
            old(self).spec_open_for() && amount > 0 && old(self).spec_flexi_of(user) + amount
                <= i128::MAX && old(self).users@.contains_key(user) && old(self).users@[user].total_balance + amount > i128::MAX ==> r == Err::<(), SavingsError>(
                SavingsError::Overflow,
            ) && *final(self) == *old(self),
            old(self).spec_open_for() && amount > 0 && old(self).spec_flexi_of(user) + amount
                <= i128::MAX && old(self).users@.contains_key(user) && old(self).users@[user].total_balance + amount <= i128::MAX ==> r == Ok::<(), SavingsError>(())
                && final(self).flexi_balances@ == old(self).flexi_balances@.insert(
                user,
                (old(self).spec_flexi_of(user) + amount) as i128,
            ) && final(self).users@ == old(self).users@.insert(
                user,
                User {
                    total_balance: (old(self).users@[user].total_balance + amount) as i128,
                    ..old(self).users@[user]
                },
            ) && final(self).user_rewards@ == old(self).spec_rewards_after_deposit(
                user,
                amount as int,
                now as int,
            ) && *final(self) == (NesteraContract {
                flexi_balances: final(self).flexi_balances,
                users: final(self).users,
                user_rewards: final(self).user_rewards,
                ..*old(self)
            }),
    {
        if self.paused {
            return Err(SavingsError::ContractPaused);
        }
        match self.guard.acquire() {
            Err(e) => {
                return Err(e);
            },
            Ok(()) => {},
        }
        if amount <= 0 {
            self.guard.release();
            return Err(SavingsError::InvalidAmount);
        }
        let balance = self.get_flexi_balance(user);
        let new_balance = match balance.checked_add(amount) {
            Some(v) => v,
            None => {
                self.guard.release();
                return Err(SavingsError::Overflow);
            },
        };
        let account = match self.users.get(&user) {
            Some(u) => *u,
            None => {
                self.guard.release();
                return Err(SavingsError::UserNotFound);
            },
        };
        let new_total = match account.total_balance.checked_add(amount) {
            Some(v) => v,
            None => {
                self.guard.release();
                return Err(SavingsError::Overflow);
            },
        };
        self.flexi_balances.insert(user, new_balance);
        self.users.insert(user, User { total_balance: new_total, ..account });
        match self.rewards_config {
            Some(cfg) => {
                let mut ledger = self.get_user_rewards(user);
                let _ = crate::rewards::award_deposit_points(&mut ledger, &cfg, amount, now);
                self.user_rewards.insert(user, ledger);
            },
            None => {},
        }
        self.guard.release();
        Ok(())
    }

    /// Withdraws from the address's instant-access balance, mirroring the
    /// delta into the account's total balance where an account record
    /// exists. Fails with `InsufficientBalance` when the amount exceeds the
    /// balance at hand; a failure leaves the state unchanged.
    pub fn withdraw_flexi(&mut self, user: u64, amount: i128, now: u64) -> (r: Result<
        (),
        SavingsError,
    >)
        ensures
            old(self).spec_balances_nonnegative() ==> final(self).spec_balances_nonnegative(),
            old(self).paused ==> r == Err::<(), SavingsError>(SavingsError::ContractPaused)
                && *final(self) == *old(self),
            !old(self).paused && old(self).guard.locked ==> r == Err::<(), SavingsError>(
                SavingsError::ReentrancyDetected,
            ) && *final(self) == *old(self),
            old(self).spec_open_for() && amount <= 0 ==> r == Err::<(), SavingsError>(
                SavingsError::InvalidAmount,
            ) && *final(self) == *old(self),
            old(self).spec_open_for() && amount > 0 && old(self).spec_flexi_of(user) < amount ==> r
                == Err::<(), SavingsError>(SavingsError::InsufficientBalance) && *final(self)
                == *old(self),
            old(self).spec_open_for() && amount > 0 && old(self).spec_flexi_of(user) >= amount
                && old(self).users@.contains_key(user) && old(self).users@[user].total_balance
                - amount < i128::MIN ==> r == Err::<(), SavingsError>(SavingsError::Underflow)
                && *final(self) == *old(self),
            old(self).spec_open_for() && amount > 0 && old(self).spec_flexi_of(user) >= amount && !(
            old(self).users@.contains_key(user) && old(self).users@[user].total_balance - amount
                < i128::MIN) ==> r == Ok::<(), SavingsError>(()) && final(self).flexi_balances@
                == old(self).flexi_balances@.insert(
                user,
                (old(self).spec_flexi_of(user) - amount) as i128,
            ) && final(self).users@ == (if old(self).users@.contains_key(user) {
                old(self).users@.insert(
                    user,
                    User {
                        total_balance: (old(self).users@[user].total_balance - amount) as i128,
                        ..old(self).users@[user]
                    },
                )
            } else {
                old(self).users@
            }) && *final(self) == (NesteraContract {
                flexi_balances: final(self).flexi_balances,
                users: final(self).users,
                ..*old(self)
            }),
    {
        if self.paused {
            return Err(SavingsError::ContractPaused);
        }
        match self.guard.acquire() {
            Err(e) => {
                return Err(e);
            },
            Ok(()) => {},
        }
        if amount <= 0 {
            self.guard.release();
            return Err(SavingsError::InvalidAmount);
        }
        let _ = now;
        let balance = self.get_flexi_balance(user);
        if balance < amount {
            self.guard.release();
            return Err(SavingsError::InsufficientBalance);
        }
        let account_opt = match self.users.get(&user) {
            Some(u) => Some(*u),
            None => None,
        };
        match account_opt {
            Some(account) => {
                let new_total = match account.total_balance.checked_sub(amount) {
                    Some(v) => v,
                    None => {
                        self.guard.release();
                        return Err(SavingsError::Underflow);
                    },
                };
                self.flexi_balances.insert(user, balance - amount);
                self.users.insert(user, User { total_balance: new_total, ..account });
            },
            None => {
                self.flexi_balances.insert(user, balance - amount);
            },
        }
        self.guard.release();
        Ok(())
    }

    /// Whether the caller is the recorded administrator.
    pub open spec fn spec_is_admin(self, caller: u64) -> bool {
        self.admin == Some(caller)
    }

    /// Hands the administrator role to a new address. Refused while another
    /// administrator is recorded and the caller is not that administrator;
    /// with no administrator recorded yet the role may be claimed, as a
    /// bootstrap.
    pub fn set_admin(&mut self, current_admin: u64, new_admin: u64) -> (r: Result<
        (),
        SavingsError,
    >)
        ensures
            old(self).spec_balances_nonnegative() ==> final(self).spec_balances_nonnegative(),
            old(self).admin is Some && old(self).admin != Some(current_admin) ==> r == Err::<
                (),
                SavingsError,
            >(SavingsError::Unauthorized) && *final(self) == *old(self),
            old(self).admin is None || old(self).admin == Some(current_admin) ==> r == Ok::<
                (),
                SavingsError,
            >(()) && *final(self) == (NesteraContract { admin: Some(new_admin), ..*old(self) }),
    {
        match self.admin {
            Some(stored) => {
                if stored != current_admin {
                    return Err(SavingsError::Unauthorized);
                }
            },
            None => {},
        }
        self.admin = Some(new_admin);
        Ok(())
    }

    /// Pauses all mutating entry points; administrator only.
    pub fn pause(&mut self, caller: u64) -> (r: Result<(), SavingsError>)
        ensures
            old(self).spec_balances_nonnegative() ==> final(self).spec_balances_nonnegative(),
            !old(self).spec_is_admin(caller) ==> r == Err::<(), SavingsError>(
                SavingsError::Unauthorized,
            ) && *final(self) == *old(self),
            old(self).spec_is_admin(caller) ==> r == Ok::<(), SavingsError>(()) && *final(self)
                == (NesteraContract { paused: true, ..*old(self) }),
    {
        match self.admin {
            Some(stored) => {
                if stored != caller {
                    return Err(SavingsError::Unauthorized);
                }
            },
            None => {
                return Err(SavingsError::Unauthorized);
            },
        }
        self.paused = true;
        Ok(())
    }

    /// Unpauses the mutating entry points; administrator only.
    pub fn unpause(&mut self, caller: u64) -> (r: Result<(), SavingsError>)
        ensures
            old(self).spec_balances_nonnegative() ==> final(self).spec_balances_nonnegative(),
            !old(self).spec_is_admin(caller) ==> r == Err::<(), SavingsError>(
                SavingsError::Unauthorized,
            ) && *final(self) == *old(self),
            old(self).spec_is_admin(caller) ==> r == Ok::<(), SavingsError>(()) && *final(self)
                == (NesteraContract { paused: false, ..*old(self) }),
    {
        match self.admin {
            Some(stored) => {
                if stored != caller {
                    return Err(SavingsError::Unauthorized);
                }
            },
            None => {
                return Err(SavingsError::Unauthorized);
            },
        }
        self.paused = false;
        Ok(())
    }

    /// Records the treasury configuration. Can only run once.
    pub fn initialize_config(&mut self, admin: u64, treasury: u64, protocol_fee_bps: u32) -> (r:
        Result<(), SavingsError>)
        ensures
            old(self).spec_balances_nonnegative() ==> final(self).spec_balances_nonnegative(),
            old(self).config is Some ==> r == Err::<(), SavingsError>(
                SavingsError::ConfigAlreadyInitialized,
            ) && *final(self) == *old(self),
            old(self).config is None && protocol_fee_bps > 10_000 ==> r == Err::<(), SavingsError>(
                SavingsError::InvalidFeeBps,
            ) && *final(self) == *old(self),
            old(self).config is None && protocol_fee_bps <= 10_000 ==> r == Ok::<(), SavingsError>(
                (),
            ) && *final(self) == (NesteraContract {
                config: Some(Config { admin, treasury, protocol_fee_bps }),
                ..*old(self)
            }),
    {
        if self.config.is_some() {
            return Err(SavingsError::ConfigAlreadyInitialized);
        }
        if protocol_fee_bps > 10_000 {
            return Err(SavingsError::InvalidFeeBps);
        }
        self.config = Some(Config { admin, treasury, protocol_fee_bps });
        Ok(())
    }

    /// The treasury configuration; `InternalError` before it is set.
    pub fn get_config(&self) -> (r: Result<Config, SavingsError>)
        ensures
            self.config is Some ==> r == Ok::<Config, SavingsError>(self.config->0),
            self.config is None ==> r == Err::<Config, SavingsError>(SavingsError::InternalError),
    {
        match self.config {
            Some(c) => Ok(c),
            None => Err(SavingsError::InternalError),
        }
    }

    /// Updates the treasury address; the configuration's administrator
    /// only.
    pub fn set_treasury(&mut self, admin: u64, new_treasury: u64) -> (r: Result<(), SavingsError>)
        ensures
            old(self).spec_balances_nonnegative() ==> final(self).spec_balances_nonnegative(),
            old(self).config is None ==> r == Err::<(), SavingsError>(SavingsError::InternalError)
                && *final(self) == *old(self),
            old(self).config is Some && old(self).config->0.admin != admin ==> r == Err::<
                (),
                SavingsError,
            >(SavingsError::Unauthorized) && *final(self) == *old(self),
            old(self).config is Some && old(self).config->0.admin == admin ==> r == Ok::<
                (),
                SavingsError,
            >(()) && *final(self) == (NesteraContract {
                config: Some(Config { treasury: new_treasury, ..old(self).config->0 }),
                ..*old(self)
            }),
    {
        let config = match self.config {
            Some(c) => c,
            None => {
                return Err(SavingsError::InternalError);
            },
        };
        if config.admin != admin {
            return Err(SavingsError::Unauthorized);
        }
        self.config = Some(Config { treasury: new_treasury, ..config });
        Ok(())
    }

    /// Updates the protocol's share of harvested yield; the configuration's
    /// administrator only.
    pub fn set_protocol_fee(&mut self, admin: u64, new_fee_bps: u32) -> (r: Result<
        (),
        SavingsError,
    >)
        ensures
            old(self).spec_balances_nonnegative() ==> final(self).spec_balances_nonnegative(),
            old(self).config is None ==> r == Err::<(), SavingsError>(SavingsError::InternalError)
                && *final(self) == *old(self),
            old(self).config is Some && old(self).config->0.admin != admin ==> r == Err::<
                (),
                SavingsError,
            >(SavingsError::Unauthorized) && *final(self) == *old(self),
            old(self).config is Some && old(self).config->0.admin == admin && new_fee_bps > 10_000
                ==> r == Err::<(), SavingsError>(SavingsError::InvalidFeeBps) && *final(self)
                == *old(self),
            old(self).config is Some && old(self).config->0.admin == admin && new_fee_bps <= 10_000
                ==> r == Ok::<(), SavingsError>(()) && *final(self) == (NesteraContract {
                config: Some(Config { protocol_fee_bps: new_fee_bps, ..old(self).config->0 }),
                ..*old(self)
            }),
    {
        let config = match self.config {
            Some(c) => c,
            None => {
                return Err(SavingsError::InternalError);
            },
        };
        if config.admin != admin {
            return Err(SavingsError::Unauthorized);
        }
        if new_fee_bps > 10_000 {
            return Err(SavingsError::InvalidFeeBps);
        }
        self.config = Some(Config { protocol_fee_bps: new_fee_bps, ..config });
        Ok(())
    }

    /// Pauses the contract through the treasury configuration's
    /// administrator.
    pub fn pause_contract(&mut self, admin: u64) -> (r: Result<(), SavingsError>)
        ensures
            old(self).spec_balances_nonnegative() ==> final(self).spec_balances_nonnegative(),
            old(self).config is None ==> r == Err::<(), SavingsError>(SavingsError::InternalError)
                && *final(self) == *old(self),
            old(self).config is Some && old(self).config->0.admin != admin ==> r == Err::<
                (),
                SavingsError,
            >(SavingsError::Unauthorized) && *final(self) == *old(self),
            old(self).config is Some && old(self).config->0.admin == admin ==> r == Ok::<
                (),
                SavingsError,
            >(()) && *final(self) == (NesteraContract { paused: true, ..*old(self) }),
    {
        let config = match self.config {
            Some(c) => c,
            None => {
                return Err(SavingsError::InternalError);
            },
        };
        if config.admin != admin {
            return Err(SavingsError::Unauthorized);
        }
        self.paused = true;
        Ok(())
    }

    /// Unpauses the contract through the treasury configuration's
    /// administrator.
    pub fn unpause_contract(&mut self, admin: u64) -> (r: Result<(), SavingsError>)
        ensures
            old(self).spec_balances_nonnegative() ==> final(self).spec_balances_nonnegative(),
            old(self).config is None ==> r == Err::<(), SavingsError>(SavingsError::InternalError)
                && *final(self) == *old(self),
            old(self).config is Some && old(self).config->0.admin != admin ==> r == Err::<
                (),
                SavingsError,
            >(SavingsError::Unauthorized) && *final(self) == *old(self),
            old(self).config is Some && old(self).config->0.admin == admin ==> r == Ok::<
                (),
                SavingsError,
            >(()) && *final(self) == (NesteraContract { paused: false, ..*old(self) }),
    {
        let config = match self.config {
            Some(c) => c,
            None => {
                return Err(SavingsError::InternalError);
            },
        };
        if config.admin != admin {
            return Err(SavingsError::Unauthorized);
        }
        self.paused = false;
        Ok(())
    }

    /// Sets the early-break fee for lock plans, in basis points of the
    /// locked amount. Authorization of the administrator is the host's
    /// concern; a rate above 100% is refused.
    pub fn set_early_break_fee_bps(&mut self, bps: u32) -> (r: Result<(), SavingsError>)
        ensures
            old(self).spec_balances_nonnegative() ==> final(self).spec_balances_nonnegative(),
            bps > 10_000 ==> r == Err::<(), SavingsError>(SavingsError::InvalidAmount) && *final(self) == *old(self),
            bps <= 10_000 ==> r == Ok::<(), SavingsError>(()) && *final(self) == (NesteraContract {
                early_break_fee_bps: bps,
                ..*old(self)
            }),
    {
        if bps > 10_000 {
            return Err(SavingsError::InvalidAmount);
        }
        self.early_break_fee_bps = bps;
        Ok(())
    }

    /// The early-break fee for lock plans, in basis points.
    pub fn get_early_break_fee_bps(&self) -> (r: u32)
        ensures
            r == self.early_break_fee_bps,
    {
        self.early_break_fee_bps
    }

    /// Records the recipient of platform fees. Authorization of the
    /// administrator is the host's concern.
    pub fn set_fee_recipient(&mut self, recipient: u64) -> (r: Result<(), SavingsError>)
        ensures
            old(self).spec_balances_nonnegative() ==> final(self).spec_balances_nonnegative(),
            r == Ok::<(), SavingsError>(()),
            *final(self) == (NesteraContract { fee_recipient: Some(recipient), ..*old(self) }),
    {
        self.fee_recipient = Some(recipient);
        Ok(())
    }

    /// The recipient of platform fees, if one was set.
    pub fn get_fee_recipient(&self) -> (r: Option<u64>)
        ensures
            r == self.fee_recipient,
    {
        self.fee_recipient
    }

    /// Sets the platform fee, in basis points. Authorization of the
    /// administrator is the host's concern; a rate above 100% is refused.
    pub fn set_protocol_fee_bps(&mut self, bps: u32) -> (r: Result<(), SavingsError>)
        ensures
            old(self).spec_balances_nonnegative() ==> final(self).spec_balances_nonnegative(),
            bps > 10_000 ==> r == Err::<(), SavingsError>(SavingsError::InvalidAmount) && *final(self) == *old(self),
            bps <= 10_000 ==> r == Ok::<(), SavingsError>(()) && *final(self) == (NesteraContract {
                platform_fee_bps: bps,
                ..*old(self)
            }),
    {
        if bps > 10_000 {
            return Err(SavingsError::InvalidAmount);
        }
        self.platform_fee_bps = bps;
        Ok(())
    }

    /// The platform fee, in basis points.
    pub fn get_protocol_fee_bps(&self) -> (r: u32)
        ensures
            r == self.platform_fee_bps,
    {
        self.platform_fee_bps
    }

    /// The protocol-level balance (harvest fees) credited to an address.
    pub fn get_protocol_fee_balance(&self, recipient: u64) -> (r: i128)
        ensures
            r == self.spec_protocol_balance_of(recipient),
    {
        match self.protocol_balances.get(&recipient) {
            Some(b) => *b,
            None => 0,
        }
    }

    /// Sets the annual rate for instant-access balances; administrator
    /// only, and a negative rate is refused.
    pub fn set_flexi_rate(&mut self, caller: u64, rate: i128) -> (r: Result<(), SavingsError>)
        ensures
            old(self).spec_balances_nonnegative() ==> final(self).spec_balances_nonnegative(),
            !old(self).spec_is_admin(caller) ==> r == Err::<(), SavingsError>(
                SavingsError::Unauthorized,
            ) && *final(self) == *old(self),
            old(self).spec_is_admin(caller) && rate < 0 ==> r == Err::<(), SavingsError>(
                SavingsError::InvalidInterestRate,
            ) && *final(self) == *old(self),
            old(self).spec_is_admin(caller) && rate >= 0 ==> r == Ok::<(), SavingsError>(())
                && *final(self) == (NesteraContract { flexi_rate: rate, ..*old(self) }),
    {
        match self.admin {
            Some(stored) => {
                if stored != caller {
                    return Err(SavingsError::Unauthorized);
                }
            },
            None => {
                return Err(SavingsError::Unauthorized);
            },
        }
        if rate < 0 {
            return Err(SavingsError::InvalidInterestRate);
        }
        self.flexi_rate = rate;
        Ok(())
    }

    /// Sets the annual rate for goal plans; administrator only, and a
    /// negative rate is refused.
    pub fn set_goal_rate(&mut self, caller: u64, rate: i128) -> (r: Result<(), SavingsError>)
        ensures
            old(self).spec_balances_nonnegative() ==> final(self).spec_balances_nonnegative(),
            !old(self).spec_is_admin(caller) ==> r == Err::<(), SavingsError>(
                SavingsError::Unauthorized,
            ) && *final(self) == *old(self),
            old(self).spec_is_admin(caller) && rate < 0 ==> r == Err::<(), SavingsError>(
                SavingsError::InvalidInterestRate,
            ) && *final(self) == *old(self),
            old(self).spec_is_admin(caller) && rate >= 0 ==> r == Ok::<(), SavingsError>(())
                && *final(self) == (NesteraContract { goal_rate: rate, ..*old(self) }),
    {
        match self.admin {
            Some(stored) => {
                if stored != caller {
                    return Err(SavingsError::Unauthorized);
                }
            },
            None => {
                return Err(SavingsError::Unauthorized);
            },
        }
        if rate < 0 {
            return Err(SavingsError::InvalidInterestRate);
        }
        self.goal_rate = rate;
        Ok(())
    }

    /// Sets the annual rate for group plans; administrator only, and a
    /// negative rate is refused.
    pub fn set_group_rate(&mut self, caller: u64, rate: i128) -> (r: Result<(), SavingsError>)
        ensures
            old(self).spec_balances_nonnegative() ==> final(self).spec_balances_nonnegative(),
            !old(self).spec_is_admin(caller) ==> r == Err::<(), SavingsError>(
                SavingsError::Unauthorized,
            ) && *final(self) == *old(self),
            old(self).spec_is_admin(caller) && rate < 0 ==> r == Err::<(), SavingsError>(
                SavingsError::InvalidInterestRate,
            ) && *final(self) == *old(self),
            old(self).spec_is_admin(caller) && rate >= 0 ==> r == Ok::<(), SavingsError>(())
                && *final(self) == (NesteraContract { group_rate: rate, ..*old(self) }),
    {
        match self.admin {
            Some(stored) => {
                if stored != caller {
                    return Err(SavingsError::Unauthorized);
                }
            },
            None => {
                return Err(SavingsError::Unauthorized);
            },
        }
        if rate < 0 {
            return Err(SavingsError::InvalidInterestRate);
        }
        self.group_rate = rate;
        Ok(())
    }

    /// Sets the rate for a lock duration tier, keyed by duration in days;
    /// administrator only, and a negative rate is refused.
    pub fn set_lock_rate(&mut self, caller: u64, duration_days: u64, rate: i128) -> (r: Result<
        (),
        SavingsError,
    >)
        ensures
            old(self).spec_balances_nonnegative() ==> final(self).spec_balances_nonnegative(),
            !old(self).spec_is_admin(caller) ==> r == Err::<(), SavingsError>(
                SavingsError::Unauthorized,
            ) && *final(self) == *old(self),
            old(self).spec_is_admin(caller) && rate < 0 ==> r == Err::<(), SavingsError>(
                SavingsError::InvalidInterestRate,
            ) && *final(self) == *old(self),
            old(self).spec_is_admin(caller) && rate >= 0 ==> r == Ok::<(), SavingsError>(())
                && final(self).lock_rates@ == old(self).lock_rates@.insert(duration_days, rate)
                && *final(self) == (NesteraContract {
                lock_rates: final(self).lock_rates,
                ..*old(self)
            }),
    {
        match self.admin {
            Some(stored) => {
                if stored != caller {
                    return Err(SavingsError::Unauthorized);
                }
            },
            None => {
                return Err(SavingsError::Unauthorized);
            },
        }
        if rate < 0 {
            return Err(SavingsError::InvalidInterestRate);
        }
        self.lock_rates.insert(duration_days, rate);
        Ok(())
    }

    /// The annual rate for instant-access balances; 0 before one is set.
    pub fn get_flexi_rate(&self) -> (r: i128)
        ensures
            r == self.flexi_rate,
    {
        self.flexi_rate
    }

    /// The annual rate for goal plans; 0 before one is set.
    pub fn get_goal_rate(&self) -> (r: i128)
        ensures
            r == self.goal_rate,
    {
        self.goal_rate
    }

    /// The annual rate for group plans; 0 before one is set.
    pub fn get_group_rate(&self) -> (r: i128)
        ensures
            r == self.group_rate,
    {
        self.group_rate
    }

    /// The rate for a lock duration tier; `PlanNotFound` where none was
    /// configured.
    pub fn get_lock_rate(&self, duration_days: u64) -> (r: Result<i128, SavingsError>)
        ensures
            self.lock_rates@.contains_key(duration_days) ==> r == Ok::<i128, SavingsError>(
                self.lock_rates@[duration_days],
            ),
            !self.lock_rates@.contains_key(duration_days) ==> r == Err::<i128, SavingsError>(
                SavingsError::PlanNotFound,
            ),
    {
        match self.lock_rates.get(&duration_days) {
            Some(rate) => Ok(*rate),
            None => Err(SavingsError::PlanNotFound),
        }
    }

    /// The account record of an address, or the fresh default: plans may be
    /// created before an account is explicitly initialized.
    pub open spec fn spec_account_or_default(self, user: u64) -> User {
        if self.users@.contains_key(user) {
            self.users@[user]
        } else {
            User { total_balance: 0, savings_count: 0 }
        }
    }

    /// Creates a generic savings plan with an initial deposit (0 allowed),
    /// drawing the plan id from the account's monotonic counter, and scores
    /// the deposit with the rewards engine. An account record is created on
    /// the fly where none exists.
    pub fn create_savings_plan(
        &mut self,
        user: u64,
        plan_type: PlanType,
        initial_deposit: i128,
        now: u64,
    ) -> (r: Result<u64, SavingsError>)
        ensures
            old(self).spec_balances_nonnegative() ==> final(self).spec_balances_nonnegative(),
            old(self).paused ==> r == Err::<u64, SavingsError>(SavingsError::ContractPaused)
                && *final(self) == *old(self),
            !old(self).paused && old(self).guard.locked ==> r == Err::<u64, SavingsError>(
                SavingsError::ReentrancyDetected,
            ) && *final(self) == *old(self),
            old(self).spec_open_for() && initial_deposit < 0 ==> r == Err::<u64, SavingsError>(
                SavingsError::InvalidAmount,
            ) && *final(self) == *old(self),
            old(self).spec_open_for() && initial_deposit >= 0 && !old(self).initialized ==> r
                == Err::<u64, SavingsError>(SavingsError::InternalError) && *final(self) == *old(self),
            old(self).spec_open_for() && initial_deposit >= 0 && old(self).initialized && old(self).spec_account_or_default(user).savings_count + 1 > u64::MAX ==> r == Err::<
                u64,
                SavingsError,
            >(SavingsError::Overflow) && *final(self) == *old(self),
            old(self).spec_open_for() && initial_deposit >= 0 && old(self).initialized && old(self).spec_account_or_default(user).savings_count + 1 <= u64::MAX && old(self).spec_account_or_default(user).total_balance + initial_deposit > i128::MAX ==> r
                == Err::<u64, SavingsError>(SavingsError::Overflow) && *final(self) == *old(self),
            old(self).spec_open_for() && initial_deposit >= 0 && old(self).initialized && old(self).spec_account_or_default(user).savings_count + 1 <= u64::MAX && old(self).spec_account_or_default(user).total_balance + initial_deposit <= i128::MAX ==> {
                let account = old(self).spec_account_or_default(user);
                let plan_id = (account.savings_count + 1) as u64;
                &&& r == Ok::<u64, SavingsError>(plan_id)
                &&& final(self).users@ == old(self).users@.insert(
                    user,
                    User {
                        total_balance: (account.total_balance + initial_deposit) as i128,
                        savings_count: plan_id,
                    },
                )
                &&& final(self).savings_plans@ == old(self).savings_plans@.insert(
                    spec_pair_key(user, plan_id),
                    SavingsPlan {
                        plan_id,
                        plan_type,
                        balance: initial_deposit,
                        start_time: now,
                        last_deposit: now,
                        last_withdraw: 0,
                        interest_rate: 500,
                        is_completed: false,
                        is_withdrawn: false,
                    },
                )
                &&& final(self).user_rewards@ == old(self).spec_rewards_after_deposit(
                    user,
                    initial_deposit as int,
                    now as int,
                )
                &&& *final(self) == (NesteraContract {
                    users: final(self).users,
                    savings_plans: final(self).savings_plans,
                    user_rewards: final(self).user_rewards,
                    ..*old(self)
                })
            },
    {
        if self.paused {
            return Err(SavingsError::ContractPaused);
        }
        match self.guard.acquire() {
            Err(e) => {
                return Err(e);
            },
            Ok(()) => {},
        }
        if initial_deposit < 0 {
            self.guard.release();
            return Err(SavingsError::InvalidAmount);
        }
        if !self.initialized {
            self.guard.release();
            return Err(SavingsError::InternalError);
        }
        let account = match self.users.get(&user) {
            Some(u) => *u,
            None => User { total_balance: 0, savings_count: 0 },
        };
        let new_count = match account.savings_count.checked_add(1) {
            Some(c) => c,
            None => {
                self.guard.release();
                return Err(SavingsError::Overflow);
            },
        };
        let new_total = match account.total_balance.checked_add(initial_deposit) {
            Some(t) => t,
            None => {
                self.guard.release();
                return Err(SavingsError::Overflow);
            },
        };
        let plan_id = new_count;
        let plan = SavingsPlan {
            plan_id,
            plan_type,
            balance: initial_deposit,
            start_time: now,
            last_deposit: now,
            last_withdraw: 0,
            interest_rate: 500,
            is_completed: false,
            is_withdrawn: false,
        };
        self.users.insert(user, User { total_balance: new_total, savings_count: new_count });
        self.savings_plans.insert(pair_key(user, plan_id), plan);
        match self.rewards_config {
            Some(cfg) => {
                let mut ledger = self.get_user_rewards(user);
                let _ = crate::rewards::award_deposit_points(&mut ledger, &cfg, initial_deposit, now);
                self.user_rewards.insert(user, ledger);
            },
            None => {},
        }
        self.guard.release();
        Ok(plan_id)
    }

    /// The generic plan stored under (owner, plan id), if any.
    pub fn get_savings_plan(&self, user: u64, plan_id: u64) -> (r: Option<SavingsPlan>)
        ensures
            self.savings_plans@.contains_key(spec_pair_key(user, plan_id)) ==> r == Some(
                self.savings_plans@[spec_pair_key(user, plan_id)],
            ),
            !self.savings_plans@.contains_key(spec_pair_key(user, plan_id)) ==> r is None,
    {
        match self.savings_plans.get(&pair_key(user, plan_id)) {
            Some(p) => Some(*p),
            None => None,
        }
    }

    /// The plan ids recorded for an owner in an id-list map; empty without
    /// a record.
    pub open spec fn spec_ids_of(m: Map<u64, Vec<u64>>, user: u64) -> Seq<u64> {
        if m.contains_key(user) {
            m[user]@
        } else {
            Seq::<u64>::empty()
        }
    }

    /// Whether `new_m` is `old_m` with the id list at `k` replaced by `s`
    /// and every other entry unchanged.
    pub open spec fn spec_ids_updated(
        old_m: Map<u64, Vec<u64>>,
        new_m: Map<u64, Vec<u64>>,
        k: u64,
        s: Seq<u64>,
    ) -> bool {
        &&& new_m.dom() == old_m.dom().insert(k)
        &&& new_m.contains_key(k)
        &&& new_m[k]@ == s
        &&& forall|x: u64|
            x != k && old_m.contains_key(x) ==> new_m.contains_key(x) && new_m[x] == old_m[x]
    }

    /// The rewards map after a lock-creating deposit is scored: as an
    /// ordinary deposit, plus the long-lock bonus where the duration
    /// reaches the threshold; unchanged where no configuration is stored.
    pub open spec fn spec_rewards_after_lock_deposit(
        self,
        user: u64,
        amount: int,
        duration_seconds: u64,
        now: int,
    ) -> Map<u64, UserRewards> {
        match self.rewards_config {
            Some(cfg) => self.user_rewards@.insert(
                user,
                crate::rewards::spec_award(
                    self.spec_rewards_of(user),
                    cfg,
                    amount,
                    now,
                    if duration_seconds >= crate::rewards::LONG_LOCK_THRESHOLD_SECONDS {
                        cfg.long_lock_bonus_bps as int
                    } else {
                        0
                    },
                ),
            ),
            None => self.user_rewards@,
        }
    }

    /// The rate configured for a lock's duration tier (its duration in
    /// whole days); 0 where none is configured.
    pub open spec fn spec_lock_rate_for(self, duration_seconds: u64) -> i128 {
        let days = (duration_seconds as int) / 86_400;
        if self.lock_rates@.contains_key(days as u64) {
            self.lock_rates@[days as u64]
        } else {
            0
        }
    }

    /// Locks a fixed amount for a fixed duration, drawing a fresh lock id,
    /// mirroring the amount into the account's total balance and scoring
    /// the deposit (with the long-lock bonus where it applies). The rate of
    /// the matching duration tier is recorded in the lock at creation.
    pub fn create_lock_save(&mut self, user: u64, amount: i128, duration: u64, now: u64) -> (r:
        Result<u64, SavingsError>)
        ensures
            old(self).spec_balances_nonnegative() ==> final(self).spec_balances_nonnegative(),
            old(self).paused ==> r == Err::<u64, SavingsError>(SavingsError::ContractPaused)
                && *final(self) == *old(self),
            !old(self).paused && old(self).guard.locked ==> r == Err::<u64, SavingsError>(
                SavingsError::ReentrancyDetected,
            ) && *final(self) == *old(self),
            old(self).spec_open_for() && amount <= 0 ==> r == Err::<u64, SavingsError>(
                SavingsError::InvalidAmount,
            ) && *final(self) == *old(self),
            old(self).spec_open_for() && amount > 0 && !old(self).users@.contains_key(user) ==> r
                == Err::<u64, SavingsError>(SavingsError::UserNotFound) && *final(self) == *old(self),
            old(self).spec_open_for() && amount > 0 && old(self).users@.contains_key(user) && old(self).users@[user].total_balance + amount > i128::MAX ==> r == Err::<u64, SavingsError>(
                SavingsError::Overflow,
            ) && *final(self) == *old(self),
            old(self).spec_open_for() && amount > 0 && old(self).users@.contains_key(user) && old(self).users@[user].total_balance + amount <= i128::MAX && old(self).next_lock_id + 1
                > u64::MAX ==> r == Err::<u64, SavingsError>(SavingsError::Overflow) && *final(self)
                == *old(self),
            old(self).spec_open_for() && amount > 0 && old(self).users@.contains_key(user) && old(self).users@[user].total_balance + amount <= i128::MAX && old(self).next_lock_id + 1
                <= u64::MAX ==> {
                let lock_id = old(self).next_lock_id;
                &&& r == Ok::<u64, SavingsError>(lock_id)
                &&& final(self).lock_saves@ == old(self).lock_saves@.insert(
                    lock_id,
                    LockSave {
                        owner: user,
                        amount,
                        duration,
                        start_time: now,
                        interest_rate: old(self).spec_lock_rate_for(duration),
                        is_withdrawn: false,
                    },
                )
                &&& Self::spec_ids_updated(
                    old(self).user_locks@,
                    final(self).user_locks@,
                    user,
                    Self::spec_ids_of(old(self).user_locks@, user).push(lock_id),
                )
                &&& final(self).users@ == old(self).users@.insert(
                    user,
                    User {
                        total_balance: (old(self).users@[user].total_balance + amount) as i128,
                        ..old(self).users@[user]
                    },
                )
                &&& final(self).next_lock_id == lock_id + 1
                &&& final(self).user_rewards@ == old(self).spec_rewards_after_lock_deposit(
                    user,
                    amount as int,
                    duration,
                    now as int,
                )
                &&& *final(self) == (NesteraContract {
                    lock_saves: final(self).lock_saves,
                    user_locks: final(self).user_locks,
                    users: final(self).users,
                    next_lock_id: final(self).next_lock_id,
                    user_rewards: final(self).user_rewards,
                    ..*old(self)
                })
            },
    {
        if self.paused {
            return Err(SavingsError::ContractPaused);
        }
        match self.guard.acquire() {
            Err(e) => {
                return Err(e);
            },
            Ok(()) => {},
        }
        if amount <= 0 {
            self.guard.release();
            return Err(SavingsError::InvalidAmount);
        }
        let account = match self.users.get(&user) {
            Some(u) => *u,
            None => {
                self.guard.release();
                return Err(SavingsError::UserNotFound);
            },
        };
        let new_total = match account.total_balance.checked_add(amount) {
            Some(t) => t,
            None => {
                self.guard.release();
                return Err(SavingsError::Overflow);
            },
        };
        let lock_id = self.next_lock_id;
        let next_id = match lock_id.checked_add(1) {
            Some(n) => n,
            None => {
                self.guard.release();
                return Err(SavingsError::Overflow);
            },
        };
        let days = duration / 86_400;
        let rate = match self.lock_rates.get(&days) {
            Some(r) => *r,
            None => 0,
        };
        let lock = LockSave {
            owner: user,
            amount,
            duration,
            start_time: now,
            interest_rate: rate,
            is_withdrawn: false,
        };
        self.lock_saves.insert(lock_id, lock);
        let mut ids = match self.user_locks.remove(&user) {
            Some(v) => v,
            None => Vec::new(),
        };
        ids.push(lock_id);
        self.user_locks.insert(user, ids);
        proof {
            assert(self.user_locks@.dom() =~= old(self).user_locks@.dom().insert(user));
        }
        self.users.insert(user, User { total_balance: new_total, ..account });
        self.next_lock_id = next_id;
        match self.rewards_config {
            Some(cfg) => {
                let mut ledger = self.get_user_rewards(user);
                let _ = crate::rewards::award_lock_deposit_points(
                    &mut ledger,
                    &cfg,
                    amount,
                    duration,
                    now,
                );
                self.user_rewards.insert(user, ledger);
            },
            None => {},
        }
        self.guard.release();
        Ok(lock_id)
    }

    /// Whether `new_c` is `old_c` after the funds of lock `lock_id` left:
    /// the lock marked withdrawn, the owner's total balance reduced by the
    /// locked amount (saturating at the integer bounds; no change without
    /// an account record), all else as it was.
    pub open spec fn spec_lock_withdraw_effects(
        old_c: NesteraContract,
        new_c: NesteraContract,
        user: u64,
        lock_id: u64,
    ) -> bool {
        let lock = old_c.lock_saves@[lock_id];
        &&& new_c.lock_saves@ == old_c.lock_saves@.insert(
            lock_id,
            LockSave { is_withdrawn: true, ..lock },
        )
        &&& new_c.users@ == (if old_c.users@.contains_key(user) {
            old_c.users@.insert(
                user,
                User {
                    total_balance: crate::rewards::sat_add_i128(
                        old_c.users@[user].total_balance as int,
                        -(lock.amount as int),
                    ) as i128,
                    ..old_c.users@[user]
                },
            )
        } else {
            old_c.users@
        })
        &&& new_c == (NesteraContract { lock_saves: new_c.lock_saves, users: new_c.users, ..old_c })
    }

    /// Withdraws a lock plan: at or past maturity the amount plus its flat
    /// interest, before maturity the amount less the configured early-break
    /// fee. A second withdrawal fails with `AlreadyWithdrawn`; the lock's
    /// principal leaves the account's total balance. Any failure leaves the
    /// state unchanged.
    pub fn withdraw_lock_save(&mut self, user: u64, lock_id: u64, now: u64) -> (r: Result<
        i128,
        SavingsError,
    >)
        ensures
            old(self).spec_balances_nonnegative() ==> final(self).spec_balances_nonnegative(),
            old(self).paused ==> r == Err::<i128, SavingsError>(SavingsError::ContractPaused)
                && *final(self) == *old(self),
            !old(self).paused && old(self).guard.locked ==> r == Err::<i128, SavingsError>(
                SavingsError::ReentrancyDetected,
            ) && *final(self) == *old(self),
            old(self).spec_open_for() && !old(self).lock_saves@.contains_key(lock_id) ==> r == Err::<
                i128,
                SavingsError,
            >(SavingsError::LockNotFound) && *final(self) == *old(self),
            old(self).spec_open_for() && old(self).lock_saves@.contains_key(lock_id) && old(self).lock_saves@[lock_id].owner != user ==> r == Err::<i128, SavingsError>(
                SavingsError::Unauthorized,
            ) && *final(self) == *old(self),
            old(self).spec_open_for() && old(self).lock_saves@.contains_key(lock_id) && old(self).lock_saves@[lock_id].owner == user && old(self).lock_saves@[lock_id].is_withdrawn ==> r
                == Err::<i128, SavingsError>(SavingsError::AlreadyWithdrawn) && *final(self) == *old(self),
            old(self).spec_open_for() && old(self).lock_saves@.contains_key(lock_id) && old(self).lock_saves@[lock_id].owner == user && !old(self).lock_saves@[lock_id].is_withdrawn
                && old(self).lock_saves@[lock_id].spec_matured(now as int) ==> {
                let lock = old(self).lock_saves@[lock_id];
                let payout = lock.amount + crate::fees::spec_lock_interest(
                    lock.amount as int,
                    lock.interest_rate as int,
                );
                if payout > i128::MAX {
                    &&& r == Err::<i128, SavingsError>(SavingsError::Overflow)
                    &&& *final(self) == *old(self)
                } else {
                    &&& r == Ok::<i128, SavingsError>(payout as i128)
                    &&& Self::spec_lock_withdraw_effects(*old(self), *final(self), user, lock_id)
                }
            },
            old(self).spec_open_for() && old(self).lock_saves@.contains_key(lock_id) && old(self).lock_saves@[lock_id].owner == user && !old(self).lock_saves@[lock_id].is_withdrawn
                && !old(self).lock_saves@[lock_id].spec_matured(now as int) ==> {
                let lock = old(self).lock_saves@[lock_id];
                let bps = old(self).early_break_fee_bps;
                if bps > 10_000 {
                    &&& r == Err::<i128, SavingsError>(SavingsError::InvalidFeeBps)
                    &&& *final(self) == *old(self)
                } else if !(i128::MIN <= lock.amount * bps <= i128::MAX) {
                    &&& r == Err::<i128, SavingsError>(SavingsError::Overflow)
                    &&& *final(self) == *old(self)
                } else {
                    let payout = lock.amount - crate::fees::spec_fee(lock.amount as int, bps as int);
                    &&& r == Ok::<i128, SavingsError>(payout as i128)
                    &&& Self::spec_lock_withdraw_effects(*old(self), *final(self), user, lock_id)
                }
            },
    {
        if self.paused {
            return Err(SavingsError::ContractPaused);
        }
        match self.guard.acquire() {
            Err(e) => {
                return Err(e);
            },
            Ok(()) => {},
        }
        let lock = match self.lock_saves.get(&lock_id) {
            Some(l) => *l,
            None => {
                self.guard.release();
                return Err(SavingsError::LockNotFound);
            },
        };
        if lock.owner != user {
            self.guard.release();
            return Err(SavingsError::Unauthorized);
        }
        if lock.is_withdrawn {
            self.guard.release();
            return Err(SavingsError::AlreadyWithdrawn);
        }
        let matured = match lock.start_time.checked_add(lock.duration) {
            Some(m) => now >= m,
            None => false,
        };
        let payout = if matured {
            let interest = crate::fees::calculate_lock_interest(lock.amount, lock.interest_rate);
            match lock.amount.checked_add(interest) {
                Some(p) => p,
                None => {
                    self.guard.release();
                    return Err(SavingsError::Overflow);
                },
            }
        } else {
            let fee = match crate::fees::calculate_fee(lock.amount, self.early_break_fee_bps) {
                Ok(f) => f,
                Err(e) => {
                    self.guard.release();
                    return Err(e);
                },
            };
            proof {
                crate::fees::lemma_fee_range(lock.amount as int, self.early_break_fee_bps as int);
            }
            lock.amount - fee
        };
        self.lock_saves.insert(lock_id, LockSave { is_withdrawn: true, ..lock });
        let account_opt = match self.users.get(&user) {
            Some(u) => Some(*u),
            None => None,
        };
        match account_opt {
            Some(account) => {
                let new_total = match account.total_balance.checked_sub(lock.amount) {
                    Some(v) => v,
                    None => if lock.amount >= 0 {
                        i128::MIN
                    } else {
                        i128::MAX
                    },
                };
                self.users.insert(user, User { total_balance: new_total, ..account });
            },
            None => {},
        }
        self.guard.release();
        Ok(payout)
    }

    /// Whether a lock plan exists and has matured at time `now`.
    pub fn check_matured_lock(&self, lock_id: u64, now: u64) -> (r: bool)
        ensures
            r == (self.lock_saves@.contains_key(lock_id) && self.lock_saves@[lock_id].spec_matured(
                now as int,
            )),
    {
        match self.lock_saves.get(&lock_id) {
            Some(lock) => match lock.start_time.checked_add(lock.duration) {
                Some(m) => now >= m,
                None => false,
            },
            None => false,
        }
    }

    /// The lock ids of an owner, in creation order.
    pub fn get_user_lock_saves(&self, user: u64) -> (r: Vec<u64>)
        ensures
            r@ == Self::spec_ids_of(self.user_locks@, user),
    {
        match self.user_locks.get(&user) {
            Some(ids) => {
                let copy = ids.clone();
                proof {
                    assert(copy@ =~= ids@);
                }
                copy
            },
            None => Vec::new(),
        }
    }

    /// The rewards map after a goal-related deposit is scored: the deposit
    /// award, then the flat completion bonus where this deposit completed
    /// the goal; unchanged where no configuration is stored.
    pub open spec fn spec_rewards_after_goal_event(
        self,
        user: u64,
        amount: int,
        now: int,
        completed: bool,
    ) -> Map<u64, UserRewards> {
        match self.rewards_config {
            Some(cfg) => {
                let scored = crate::rewards::spec_award(
                    self.spec_rewards_of(user),
                    cfg,
                    amount,
                    now,
                    0,
                );
                let after = if completed {
                    crate::rewards::spec_goal_bonus(scored, cfg, now)
                } else {
                    scored
                };
                self.user_rewards@.insert(user, after)
            },
            None => self.user_rewards@,
        }
    }

    /// Creates a goal-targeted plan with an initial deposit, drawing a
    /// fresh goal id. A deposit that already reaches the target completes
    /// the goal at once and earns the one-time completion bonus.
    pub fn create_goal_save(
        &mut self,
        user: u64,
        goal_name: u64,
        target_amount: i128,
        initial_deposit: i128,
        now: u64,
    ) -> (r: Result<u64, SavingsError>)
        ensures
            old(self).spec_balances_nonnegative() ==> final(self).spec_balances_nonnegative(),
            old(self).paused ==> r == Err::<u64, SavingsError>(SavingsError::ContractPaused)
                && *final(self) == *old(self),
            !old(self).paused && old(self).guard.locked ==> r == Err::<u64, SavingsError>(
                SavingsError::ReentrancyDetected,
            ) && *final(self) == *old(self),
            old(self).spec_open_for() && (target_amount <= 0 || initial_deposit < 0) ==> r == Err::<
                u64,
                SavingsError,
            >(SavingsError::InvalidAmount) && *final(self) == *old(self),
            old(self).spec_open_for() && target_amount > 0 && initial_deposit >= 0 && !old(self).users@.contains_key(user) ==> r == Err::<u64, SavingsError>(SavingsError::UserNotFound)
                && *final(self) == *old(self),
            old(self).spec_open_for() && target_amount > 0 && initial_deposit >= 0 && old(self).users@.contains_key(user) && old(self).users@[user].total_balance + initial_deposit
                > i128::MAX ==> r == Err::<u64, SavingsError>(SavingsError::Overflow) && *final(self)
                == *old(self),
            old(self).spec_open_for() && target_amount > 0 && initial_deposit >= 0 && old(self).users@.contains_key(user) && old(self).users@[user].total_balance + initial_deposit
                <= i128::MAX && old(self).next_goal_id + 1 > u64::MAX ==> r == Err::<
                u64,
                SavingsError,
            >(SavingsError::Overflow) && *final(self) == *old(self),
            old(self).spec_open_for() && target_amount > 0 && initial_deposit >= 0 && old(self).users@.contains_key(user) && old(self).users@[user].total_balance + initial_deposit
                <= i128::MAX && old(self).next_goal_id + 1 <= u64::MAX ==> {
                let goal_id = old(self).next_goal_id;
                let completed = initial_deposit >= target_amount;
                &&& r == Ok::<u64, SavingsError>(goal_id)
                &&& final(self).goal_saves@ == old(self).goal_saves@.insert(
                    goal_id,
                    GoalSave {
                        owner: user,
                        goal_name,
                        target_amount,
                        current_amount: initial_deposit,
                        start_time: now,
                        is_completed: completed,
                        is_withdrawn: false,
                    },
                )
                &&& Self::spec_ids_updated(
                    old(self).user_goals@,
                    final(self).user_goals@,
                    user,
                    Self::spec_ids_of(old(self).user_goals@, user).push(goal_id),
                )
                &&& final(self).users@ == old(self).users@.insert(
                    user,
                    User {
                        total_balance: (old(self).users@[user].total_balance
                            + initial_deposit) as i128,
                        ..old(self).users@[user]
                    },
                )
                &&& final(self).next_goal_id == goal_id + 1
                &&& final(self).user_rewards@ == old(self).spec_rewards_after_goal_event(
                    user,
                    initial_deposit as int,
                    now as int,
                    completed,
                )
                &&& *final(self) == (NesteraContract {
                    goal_saves: final(self).goal_saves,
                    user_goals: final(self).user_goals,
                    users: final(self).users,
                    next_goal_id: final(self).next_goal_id,
                    user_rewards: final(self).user_rewards,
                    ..*old(self)
                })
            },
    {
        if self.paused {
            return Err(SavingsError::ContractPaused);
        }
        match self.guard.acquire() {
            Err(e) => {
                return Err(e);
            },
            Ok(()) => {},
        }
        if target_amount <= 0 || initial_deposit < 0 {
            self.guard.release();
            return Err(SavingsError::InvalidAmount);
        }
        let account = match self.users.get(&user) {
            Some(u) => *u,
            None => {
                self.guard.release();
                return Err(SavingsError::UserNotFound);
            },
        };
        let new_total = match account.total_balance.checked_add(initial_deposit) {
            Some(t) => t,
            None => {
                self.guard.release();
                return Err(SavingsError::Overflow);
            },
        };
        let goal_id = self.next_goal_id;
        let next_id = match goal_id.checked_add(1) {
            Some(n) => n,
            None => {
                self.guard.release();
                return Err(SavingsError::Overflow);
            },
        };
        let completed = initial_deposit >= target_amount;
        let goal = GoalSave {
            owner: user,
            goal_name,
            target_amount,
            current_amount: initial_deposit,
            start_time: now,
            is_completed: completed,
            is_withdrawn: false,
        };
        self.goal_saves.insert(goal_id, goal);
        let mut ids = match self.user_goals.remove(&user) {
            Some(v) => v,
            None => Vec::new(),
        };
        ids.push(goal_id);
        self.user_goals.insert(user, ids);
        proof {
            assert(self.user_goals@.dom() =~= old(self).user_goals@.dom().insert(user));
        }
        self.users.insert(user, User { total_balance: new_total, ..account });
        self.next_goal_id = next_id;
        match self.rewards_config {
            Some(cfg) => {
                let mut ledger = self.get_user_rewards(user);
                let _ = crate::rewards::award_deposit_points(&mut ledger, &cfg, initial_deposit, now);
                if completed {
                    let _ = crate::rewards::award_goal_completion_bonus(&mut ledger, &cfg, now);
                }
                self.user_rewards.insert(user, ledger);
            },
            None => {},
        }
        self.guard.release();
        Ok(goal_id)
    }

    /// Deposits into a goal plan, completing it (and earning the one-time
    /// completion bonus) once the accumulated amount reaches the target.
    /// Deposits into a completed or withdrawn goal are refused.
    pub fn deposit_to_goal_save(&mut self, user: u64, goal_id: u64, amount: i128, now: u64) -> (r:
        Result<(), SavingsError>)
        ensures
            old(self).spec_balances_nonnegative() ==> final(self).spec_balances_nonnegative(),
            old(self).paused ==> r == Err::<(), SavingsError>(SavingsError::ContractPaused)
                && *final(self) == *old(self),
            !old(self).paused && old(self).guard.locked ==> r == Err::<(), SavingsError>(
                SavingsError::ReentrancyDetected,
            ) && *final(self) == *old(self),
            old(self).spec_open_for() && amount <= 0 ==> r == Err::<(), SavingsError>(
                SavingsError::InvalidAmount,
            ) && *final(self) == *old(self),
            old(self).spec_open_for() && amount > 0 && !old(self).goal_saves@.contains_key(goal_id)
                ==> r == Err::<(), SavingsError>(SavingsError::PlanNotFound) && *final(self) == *old(self),
            old(self).spec_open_for() && amount > 0 && old(self).goal_saves@.contains_key(goal_id)
                && old(self).goal_saves@[goal_id].owner != user ==> r == Err::<(), SavingsError>(
                SavingsError::Unauthorized,
            ) && *final(self) == *old(self),
            old(self).spec_open_for() && amount > 0 && old(self).goal_saves@.contains_key(goal_id)
                && old(self).goal_saves@[goal_id].owner == user && old(self).goal_saves@[goal_id].is_withdrawn ==> r == Err::<(), SavingsError>(
                SavingsError::AlreadyWithdrawn,
            ) && *final(self) == *old(self),
            old(self).spec_open_for() && amount > 0 && old(self).goal_saves@.contains_key(goal_id)
                && old(self).goal_saves@[goal_id].owner == user && !old(self).goal_saves@[goal_id].is_withdrawn && old(self).goal_saves@[goal_id].is_completed ==> r
                == Err::<(), SavingsError>(SavingsError::PlanCompleted) && *final(self) == *old(self),
            old(self).spec_open_for() && amount > 0 && old(self).goal_saves@.contains_key(goal_id)
                && old(self).goal_saves@[goal_id].owner == user && !old(self).goal_saves@[goal_id].is_withdrawn && !old(self).goal_saves@[goal_id].is_completed
                && old(self).goal_saves@[goal_id].current_amount + amount > i128::MAX ==> r == Err::<
                (),
                SavingsError,
            >(SavingsError::Overflow) && *final(self) == *old(self),
            old(self).spec_open_for() && amount > 0 && old(self).goal_saves@.contains_key(goal_id)
                && old(self).goal_saves@[goal_id].owner == user && !old(self).goal_saves@[goal_id].is_withdrawn && !old(self).goal_saves@[goal_id].is_completed
                && old(self).goal_saves@[goal_id].current_amount + amount <= i128::MAX && !old(self).users@.contains_key(user) ==> r == Err::<(), SavingsError>(SavingsError::UserNotFound)
                && *final(self) == *old(self),
            old(self).spec_open_for() && amount > 0 && old(self).goal_saves@.contains_key(goal_id)
                && old(self).goal_saves@[goal_id].owner == user && !old(self).goal_saves@[goal_id].is_withdrawn && !old(self).goal_saves@[goal_id].is_completed
                && old(self).goal_saves@[goal_id].current_amount + amount <= i128::MAX && old(self).users@.contains_key(user) && old(self).users@[user].total_balance + amount > i128::MAX
                ==> r == Err::<(), SavingsError>(SavingsError::Overflow) && *final(self) == *old(self),
            old(self).spec_open_for() && amount > 0 && old(self).goal_saves@.contains_key(goal_id)
                && old(self).goal_saves@[goal_id].owner == user && !old(self).goal_saves@[goal_id].is_withdrawn && !old(self).goal_saves@[goal_id].is_completed
                && old(self).goal_saves@[goal_id].current_amount + amount <= i128::MAX && old(self).users@.contains_key(user) && old(self).users@[user].total_balance + amount
                <= i128::MAX ==> {
                let goal = old(self).goal_saves@[goal_id];
                let new_current = (goal.current_amount + amount) as i128;
                let completed = new_current >= goal.target_amount;
                &&& r == Ok::<(), SavingsError>(())
                &&& final(self).goal_saves@ == old(self).goal_saves@.insert(
                    goal_id,
                    GoalSave { current_amount: new_current, is_completed: completed, ..goal },
                )
                &&& final(self).users@ == old(self).users@.insert(
                    user,
                    User {
                        total_balance: (old(self).users@[user].total_balance + amount) as i128,
                        ..old(self).users@[user]
                    },
                )
                &&& final(self).user_rewards@ == old(self).spec_rewards_after_goal_event(
                    user,
                    amount as int,
                    now as int,
                    completed,
                )
                &&& *final(self) == (NesteraContract {
                    goal_saves: final(self).goal_saves,
                    users: final(self).users,
                    user_rewards: final(self).user_rewards,
                    ..*old(self)
                })
            },
    {
        if self.paused {
            return Err(SavingsError::ContractPaused);
        }
        match self.guard.acquire() {
            Err(e) => {
                return Err(e);
            },
            Ok(()) => {},
        }
        if amount <= 0 {
            self.guard.release();
            return Err(SavingsError::InvalidAmount);
        }
        let goal = match self.goal_saves.get(&goal_id) {
            Some(g) => *g,
            None => {
                self.guard.release();
                return Err(SavingsError::PlanNotFound);
            },
        };
        if goal.owner != user {
            self.guard.release();
            return Err(SavingsError::Unauthorized);
        }
        if goal.is_withdrawn {
            self.guard.release();
            return Err(SavingsError::AlreadyWithdrawn);
        }
        if goal.is_completed {
            self.guard.release();
            return Err(SavingsError::PlanCompleted);
        }
        let new_current = match goal.current_amount.checked_add(amount) {
            Some(v) => v,
            None => {
                self.guard.release();
                return Err(SavingsError::Overflow);
            },
        };
        let account = match self.users.get(&user) {
            Some(u) => *u,
            None => {
                self.guard.release();
                return Err(SavingsError::UserNotFound);
            },
        };
        let new_total = match account.total_balance.checked_add(amount) {
            Some(t) => t,
            None => {
                self.guard.release();
                return Err(SavingsError::Overflow);
            },
        };
        let completed = new_current >= goal.target_amount;
        self.goal_saves.insert(
            goal_id,
            GoalSave { current_amount: new_current, is_completed: completed, ..goal },
        );
        self.users.insert(user, User { total_balance: new_total, ..account });
        match self.rewards_config {
            Some(cfg) => {
                let mut ledger = self.get_user_rewards(user);
                let _ = crate::rewards::award_deposit_points(&mut ledger, &cfg, amount, now);
                if completed {
                    let _ = crate::rewards::award_goal_completion_bonus(&mut ledger, &cfg, now);
                }
                self.user_rewards.insert(user, ledger);
            },
            None => {},
        }
        self.guard.release();
        Ok(())
    }

    /// Whether `new_c` is `old_c` after the funds of goal `goal_id` left:
    /// the goal marked withdrawn, the owner's total balance reduced by the
    /// accumulated amount (saturating at the integer bounds; no change
    /// without an account record), all else as it was.
    pub open spec fn spec_goal_withdraw_effects(
        old_c: NesteraContract,
        new_c: NesteraContract,
        user: u64,
        goal_id: u64,
    ) -> bool {
        let goal = old_c.goal_saves@[goal_id];
        &&& new_c.goal_saves@ == old_c.goal_saves@.insert(
            goal_id,
            GoalSave { is_withdrawn: true, ..goal },
        )
        &&& new_c.users@ == (if old_c.users@.contains_key(user) {
            old_c.users@.insert(
                user,
                User {
                    total_balance: crate::rewards::sat_add_i128(
                        old_c.users@[user].total_balance as int,
                        -(goal.current_amount as int),
                    ) as i128,
                    ..old_c.users@[user]
                },
            )
        } else {
            old_c.users@
        })
        &&& new_c == (NesteraContract { goal_saves: new_c.goal_saves, users: new_c.users, ..old_c })
    }

    /// Withdraws a completed goal plan, returning the accumulated amount.
    /// A goal that has not reached its target is refused with
    /// `GoalNotCompleted`; breaking it instead goes through
    /// `break_goal_save`.
    pub fn withdraw_completed_goal_save(&mut self, user: u64, goal_id: u64) -> (r: Result<
        i128,
        SavingsError,
    >)
        ensures
            old(self).spec_balances_nonnegative() ==> final(self).spec_balances_nonnegative(),
            old(self).paused ==> r == Err::<i128, SavingsError>(SavingsError::ContractPaused)
                && *final(self) == *old(self),
            !old(self).paused && old(self).guard.locked ==> r == Err::<i128, SavingsError>(
                SavingsError::ReentrancyDetected,
            ) && *final(self) == *old(self),
            old(self).spec_open_for() && !old(self).goal_saves@.contains_key(goal_id) ==> r == Err::<
                i128,
                SavingsError,
            >(SavingsError::PlanNotFound) && *final(self) == *old(self),
            old(self).spec_open_for() && old(self).goal_saves@.contains_key(goal_id) && old(self).goal_saves@[goal_id].owner != user ==> r == Err::<i128, SavingsError>(
                SavingsError::Unauthorized,
            ) && *final(self) == *old(self),
            old(self).spec_open_for() && old(self).goal_saves@.contains_key(goal_id) && old(self).goal_saves@[goal_id].owner == user && old(self).goal_saves@[goal_id].is_withdrawn ==> r
                == Err::<i128, SavingsError>(SavingsError::AlreadyWithdrawn) && *final(self) == *old(self),
            old(self).spec_open_for() && old(self).goal_saves@.contains_key(goal_id) && old(self).goal_saves@[goal_id].owner == user && !old(self).goal_saves@[goal_id].is_withdrawn
                && !old(self).goal_saves@[goal_id].is_completed ==> r == Err::<i128, SavingsError>(
                SavingsError::GoalNotCompleted,
            ) && *final(self) == *old(self),
            old(self).spec_open_for() && old(self).goal_saves@.contains_key(goal_id) && old(self).goal_saves@[goal_id].owner == user && !old(self).goal_saves@[goal_id].is_withdrawn
                && old(self).goal_saves@[goal_id].is_completed ==> r == Ok::<i128, SavingsError>(
                old(self).goal_saves@[goal_id].current_amount,
            ) && Self::spec_goal_withdraw_effects(*old(self), *final(self), user, goal_id),
    {
        if self.paused {
            return Err(SavingsError::ContractPaused);
        }
        match self.guard.acquire() {
            Err(e) => {
                return Err(e);
            },
            Ok(()) => {},
        }
        let goal = match self.goal_saves.get(&goal_id) {
            Some(g) => *g,
            None => {
                self.guard.release();
                return Err(SavingsError::PlanNotFound);
            },
        };
        if goal.owner != user {
            self.guard.release();
            return Err(SavingsError::Unauthorized);
        }
        if goal.is_withdrawn {
            self.guard.release();
            return Err(SavingsError::AlreadyWithdrawn);
        }
        if !goal.is_completed {
            self.guard.release();
            return Err(SavingsError::GoalNotCompleted);
        }
        self.apply_goal_withdrawal(user, goal_id, goal);
        self.guard.release();
        Ok(goal.current_amount)
    }

    /// Breaks an incomplete goal plan, returning the accumulated amount and
    /// forfeiting the goal-completion bonus. A completed goal is refused
    /// with `PlanCompleted`; it is withdrawn through
    /// `withdraw_completed_goal_save`.
    pub fn break_goal_save(&mut self, user: u64, goal_id: u64) -> (r: Result<i128, SavingsError>)
        ensures
            old(self).spec_balances_nonnegative() ==> final(self).spec_balances_nonnegative(),
            old(self).paused ==> r == Err::<i128, SavingsError>(SavingsError::ContractPaused)
                && *final(self) == *old(self),
            !old(self).paused && old(self).guard.locked ==> r == Err::<i128, SavingsError>(
                SavingsError::ReentrancyDetected,
            ) && *final(self) == *old(self),
            old(self).spec_open_for() && !old(self).goal_saves@.contains_key(goal_id) ==> r == Err::<
                i128,
                SavingsError,
            >(SavingsError::PlanNotFound) && *final(self) == *old(self),
            old(self).spec_open_for() && old(self).goal_saves@.contains_key(goal_id) && old(self).goal_saves@[goal_id].owner != user ==> r == Err::<i128, SavingsError>(
                SavingsError::Unauthorized,
            ) && *final(self) == *old(self),
            old(self).spec_open_for() && old(self).goal_saves@.contains_key(goal_id) && old(self).goal_saves@[goal_id].owner == user && old(self).goal_saves@[goal_id].is_withdrawn ==> r
                == Err::<i128, SavingsError>(SavingsError::AlreadyWithdrawn) && *final(self) == *old(self),
            old(self).spec_open_for() && old(self).goal_saves@.contains_key(goal_id) && old(self).goal_saves@[goal_id].owner == user && !old(self).goal_saves@[goal_id].is_withdrawn
                && old(self).goal_saves@[goal_id].is_completed ==> r == Err::<i128, SavingsError>(
                SavingsError::PlanCompleted,
            ) && *final(self) == *old(self),
            old(self).spec_open_for() && old(self).goal_saves@.contains_key(goal_id) && old(self).goal_saves@[goal_id].owner == user && !old(self).goal_saves@[goal_id].is_withdrawn
                && !old(self).goal_saves@[goal_id].is_completed ==> r == Ok::<i128, SavingsError>(
                old(self).goal_saves@[goal_id].current_amount,
            ) && Self::spec_goal_withdraw_effects(*old(self), *final(self), user, goal_id),
    {
        if self.paused {
            return Err(SavingsError::ContractPaused);
        }
        match self.guard.acquire() {
            Err(e) => {
                return Err(e);
            },
            Ok(()) => {},
        }
        let goal = match self.goal_saves.get(&goal_id) {
            Some(g) => *g,
            None => {
                self.guard.release();
                return Err(SavingsError::PlanNotFound);
            },
        };
        if goal.owner != user {
            self.guard.release();
            return Err(SavingsError::Unauthorized);
        }
        if goal.is_withdrawn {
            self.guard.release();
            return Err(SavingsError::AlreadyWithdrawn);
        }
        if goal.is_completed {
            self.guard.release();
            return Err(SavingsError::PlanCompleted);
        }
        self.apply_goal_withdrawal(user, goal_id, goal);
        self.guard.release();
        Ok(goal.current_amount)
    }

    /// Marks a goal withdrawn and debits its accumulated amount from the
    /// owner's total balance.
    fn apply_goal_withdrawal(&mut self, user: u64, goal_id: u64, goal: GoalSave)
        requires
            old(self).goal_saves@.contains_key(goal_id),
            old(self).goal_saves@[goal_id] == goal,
        ensures
            final(self).goal_saves@ == old(self).goal_saves@.insert(
                goal_id,
                GoalSave { is_withdrawn: true, ..goal },
            ),
            final(self).users@ == (if old(self).users@.contains_key(user) {
                old(self).users@.insert(
                    user,
                    User {
                        total_balance: crate::rewards::sat_add_i128(
                            old(self).users@[user].total_balance as int,
                            -(goal.current_amount as int),
                        ) as i128,
                        ..old(self).users@[user]
                    },
                )
            } else {
                old(self).users@
            }),
            *final(self) == (NesteraContract {
                goal_saves: final(self).goal_saves,
                users: final(self).users,
                ..*old(self)
            }),
    {
        self.goal_saves.insert(goal_id, GoalSave { is_withdrawn: true, ..goal });
        let account_opt = match self.users.get(&user) {
            Some(u) => Some(*u),
            None => None,
        };
        match account_opt {
            Some(account) => {
                let new_total = match account.total_balance.checked_sub(goal.current_amount) {
                    Some(v) => v,
                    None => if goal.current_amount >= 0 {
                        i128::MIN
                    } else {
                        i128::MAX
                    },
                };
                self.users.insert(user, User { total_balance: new_total, ..account });
            },
            None => {},
        }
    }

    /// The goal plan stored under a goal id; `PlanNotFound` without one.
    pub fn get_goal_save_detail(&self, goal_id: u64) -> (r: Result<GoalSave, SavingsError>)
        ensures
            self.goal_saves@.contains_key(goal_id) ==> r == Ok::<GoalSave, SavingsError>(
                self.goal_saves@[goal_id],
            ),
            !self.goal_saves@.contains_key(goal_id) ==> r == Err::<GoalSave, SavingsError>(
                SavingsError::PlanNotFound,
            ),
    {
        match self.goal_saves.get(&goal_id) {
            Some(g) => Ok(*g),
            None => Err(SavingsError::PlanNotFound),
        }
    }

    /// The goal ids of an owner, in creation order.
    pub fn get_user_goal_saves(&self, user: u64) -> (r: Vec<u64>)
        ensures
            r@ == Self::spec_ids_of(self.user_goals@, user),
    {
        match self.user_goals.get(&user) {
            Some(ids) => {
                let copy = ids.clone();
                proof {
                    assert(copy@ =~= ids@);
                }
                copy
            },
            None => Vec::new(),
        }
    }

    /// The contribution a member has made to a group; 0 without a record.
    pub open spec fn spec_contribution_of(self, group_id: u64, member: u64) -> int {
        let key = spec_pair_key(group_id, member);
        if self.group_contributions@.contains_key(key) {
            self.group_contributions@[key] as int
        } else {
            0
        }
    }

    /// Whether an address has joined a group.
    pub open spec fn spec_is_group_member(self, group_id: u64, member: u64) -> bool {
        self.group_contributions@.contains_key(spec_pair_key(group_id, member))
    }

    /// Creates a group-pooled plan, drawing a fresh group id; the creator
    /// joins it at once with a zero contribution. The target must be
    /// positive, the suggested contribution non-negative, and the window
    /// must not end before it starts.
    pub fn create_group_save(
        &mut self,
        creator: u64,
        title: String,
        description: String,
        category: String,
        target_amount: i128,
        contribution_type: u32,
        contribution_amount: i128,
        is_public: bool,
        start_time: u64,
        end_time: u64,
    ) -> (r: Result<u64, SavingsError>)
        ensures
            old(self).spec_balances_nonnegative() ==> final(self).spec_balances_nonnegative(),
            old(self).paused ==> r == Err::<u64, SavingsError>(SavingsError::ContractPaused)
                && *final(self) == *old(self),
            !old(self).paused && old(self).guard.locked ==> r == Err::<u64, SavingsError>(
                SavingsError::ReentrancyDetected,
            ) && *final(self) == *old(self),
            old(self).spec_open_for() && (target_amount <= 0 || contribution_amount < 0 || end_time
                < start_time) ==> r == Err::<u64, SavingsError>(SavingsError::InvalidAmount)
                && *final(self) == *old(self),
            old(self).spec_open_for() && target_amount > 0 && contribution_amount >= 0 && end_time
                >= start_time && old(self).next_group_id + 1 > u64::MAX ==> r == Err::<
                u64,
                SavingsError,
            >(SavingsError::Overflow) && *final(self) == *old(self),
            old(self).spec_open_for() && target_amount > 0 && contribution_amount >= 0 && end_time
                >= start_time && old(self).next_group_id + 1 <= u64::MAX ==> {
                let group_id = old(self).next_group_id;
                &&& r == Ok::<u64, SavingsError>(group_id)
                &&& final(self).group_saves@ == old(self).group_saves@.insert(
                    group_id,
                    GroupSave {
                        creator,
                        title,
                        description,
                        category,
                        target_amount,
                        contribution_type,
                        contribution_amount,
                        is_public,
                        start_time,
                        end_time,
                        current_amount: 0,
                        is_completed: false,
                    },
                )
                &&& final(self).group_contributions@ == old(self).group_contributions@.insert(
                    spec_pair_key(group_id, creator),
                    0i128,
                )
                &&& final(self).next_group_id == group_id + 1
                &&& *final(self) == (NesteraContract {
                    group_saves: final(self).group_saves,
                    group_contributions: final(self).group_contributions,
                    next_group_id: final(self).next_group_id,
                    ..*old(self)
                })
            },
    {
        if self.paused {
            return Err(SavingsError::ContractPaused);
        }
        match self.guard.acquire() {
            Err(e) => {
                return Err(e);
            },
            Ok(()) => {},
        }
        if target_amount <= 0 || contribution_amount < 0 || end_time < start_time {
            self.guard.release();
            return Err(SavingsError::InvalidAmount);
        }
        let group_id = self.next_group_id;
        let next_id = match group_id.checked_add(1) {
            Some(n) => n,
            None => {
                self.guard.release();
                return Err(SavingsError::Overflow);
            },
        };
        let group = GroupSave {
            creator,
            title,
            description,
            category,
            target_amount,
            contribution_type,
            contribution_amount,
            is_public,
            start_time,
            end_time,
            current_amount: 0,
            is_completed: false,
        };
        self.group_saves.insert(group_id, group);
        self.group_contributions.insert(pair_key(group_id, creator), 0);
        self.next_group_id = next_id;
        self.guard.release();
        Ok(group_id)
    }

    /// Joins a group: the group must exist, not be completed, and be public
    /// unless the joiner created it. Joining is idempotent; a fresh member
    /// starts with a zero contribution.
    pub fn join_group_save(&mut self, user: u64, group_id: u64) -> (r: Result<(), SavingsError>)
        ensures
            old(self).spec_balances_nonnegative() ==> final(self).spec_balances_nonnegative(),
            old(self).paused ==> r == Err::<(), SavingsError>(SavingsError::ContractPaused)
                && *final(self) == *old(self),
            !old(self).paused && old(self).guard.locked ==> r == Err::<(), SavingsError>(
                SavingsError::ReentrancyDetected,
            ) && *final(self) == *old(self),
            old(self).spec_open_for() && !old(self).group_saves@.contains_key(group_id) ==> r
                == Err::<(), SavingsError>(SavingsError::PlanNotFound) && *final(self) == *old(self),
            old(self).spec_open_for() && old(self).group_saves@.contains_key(group_id) && old(self).group_saves@[group_id].is_completed ==> r == Err::<(), SavingsError>(
                SavingsError::PlanCompleted,
            ) && *final(self) == *old(self),
            old(self).spec_open_for() && old(self).group_saves@.contains_key(group_id) && !old(self).group_saves@[group_id].is_completed && !old(self).group_saves@[group_id].is_public
                && old(self).group_saves@[group_id].creator != user ==> r == Err::<(), SavingsError>(
                SavingsError::Unauthorized,
            ) && *final(self) == *old(self),
            old(self).spec_open_for() && old(self).group_saves@.contains_key(group_id) && !old(self).group_saves@[group_id].is_completed && (old(self).group_saves@[group_id].is_public
                || old(self).group_saves@[group_id].creator == user) ==> r == Ok::<(), SavingsError>(
                (),
            ) && final(self).group_contributions@ == (if old(self).spec_is_group_member(
                group_id,
                user,
            ) {
                old(self).group_contributions@
            } else {
                old(self).group_contributions@.insert(spec_pair_key(group_id, user), 0i128)
            }) && *final(self) == (NesteraContract {
                group_contributions: final(self).group_contributions,
                ..*old(self)
            }),
    {
        if self.paused {
            return Err(SavingsError::ContractPaused);
        }
        match self.guard.acquire() {
            Err(e) => {
                return Err(e);
            },
            Ok(()) => {},
        }
        let (is_completed, is_public, creator) = match self.group_saves.get(&group_id) {
            Some(g) => (g.is_completed, g.is_public, g.creator),
            None => {
                self.guard.release();
                return Err(SavingsError::PlanNotFound);
            },
        };
        if is_completed {
            self.guard.release();
            return Err(SavingsError::PlanCompleted);
        }
        if !is_public && creator != user {
            self.guard.release();
            return Err(SavingsError::Unauthorized);
        }
        let key = pair_key(group_id, user);
        if !self.group_contributions.contains_key(&key) {
            self.group_contributions.insert(key, 0);
        }
        self.guard.release();
        Ok(())
    }

    /// Contributes to a group: the amount is added to the member's own
    /// ledger and to the group's pooled total, mirrored into the account's
    /// total balance and scored with the rewards engine. The pool completes
    /// once it reaches its target.
    pub fn contribute_to_group_save(&mut self, user: u64, group_id: u64, amount: i128, now: u64) -> (r:
        Result<(), SavingsError>)
        ensures
            old(self).spec_balances_nonnegative() ==> final(self).spec_balances_nonnegative(),
            old(self).paused ==> r == Err::<(), SavingsError>(SavingsError::ContractPaused)
                && *final(self) == *old(self),
            !old(self).paused && old(self).guard.locked ==> r == Err::<(), SavingsError>(
                SavingsError::ReentrancyDetected,
            ) && *final(self) == *old(self),
            old(self).spec_open_for() && amount <= 0 ==> r == Err::<(), SavingsError>(
                SavingsError::InvalidAmount,
            ) && *final(self) == *old(self),
            old(self).spec_open_for() && amount > 0 && !old(self).group_saves@.contains_key(
                group_id,
            ) ==> r == Err::<(), SavingsError>(SavingsError::PlanNotFound) && *final(self) == *old(self),
            old(self).spec_open_for() && amount > 0 && old(self).group_saves@.contains_key(group_id)
                && old(self).group_saves@[group_id].is_completed ==> r == Err::<(), SavingsError>(
                SavingsError::PlanCompleted,
            ) && *final(self) == *old(self),
            old(self).spec_open_for() && amount > 0 && old(self).group_saves@.contains_key(group_id)
                && !old(self).group_saves@[group_id].is_completed && !old(self).spec_is_group_member(
                group_id,
                user,
            ) ==> r == Err::<(), SavingsError>(SavingsError::Unauthorized) && *final(self) == *old(self),
            old(self).spec_open_for() && amount > 0 && old(self).group_saves@.contains_key(group_id)
                && !old(self).group_saves@[group_id].is_completed && old(self).spec_is_group_member(
                group_id,
                user,
            ) && old(self).spec_contribution_of(group_id, user) + amount > i128::MAX ==> r == Err::<
                (),
                SavingsError,
            >(SavingsError::Overflow) && *final(self) == *old(self),
            old(self).spec_open_for() && amount > 0 && old(self).group_saves@.contains_key(group_id)
                && !old(self).group_saves@[group_id].is_completed && old(self).spec_is_group_member(
                group_id,
                user,
            ) && old(self).spec_contribution_of(group_id, user) + amount <= i128::MAX && old(self).group_saves@[group_id].current_amount + amount > i128::MAX ==> r == Err::<
                (),
                SavingsError,
            >(SavingsError::Overflow) && *final(self) == *old(self),
            old(self).spec_open_for() && amount > 0 && old(self).group_saves@.contains_key(group_id)
                && !old(self).group_saves@[group_id].is_completed && old(self).spec_is_group_member(
                group_id,
                user,
            ) && old(self).spec_contribution_of(group_id, user) + amount <= i128::MAX && old(self).group_saves@[group_id].current_amount + amount <= i128::MAX && !old(self).users@.contains_key(user) ==> r == Err::<(), SavingsError>(SavingsError::UserNotFound)
                && *final(self) == *old(self),
            old(self).spec_open_for() && amount > 0 && old(self).group_saves@.contains_key(group_id)
                && !old(self).group_saves@[group_id].is_completed && old(self).spec_is_group_member(
                group_id,
                user,
            ) && old(self).spec_contribution_of(group_id, user) + amount <= i128::MAX && old(self).group_saves@[group_id].current_amount + amount <= i128::MAX && old(self).users@.contains_key(user) && old(self).users@[user].total_balance + amount
                > i128::MAX ==> r == Err::<(), SavingsError>(SavingsError::Overflow) && *final(self)
                == *old(self),
            old(self).spec_open_for() && amount > 0 && old(self).group_saves@.contains_key(group_id)
                && !old(self).group_saves@[group_id].is_completed && old(self).spec_is_group_member(
                group_id,
                user,
            ) && old(self).spec_contribution_of(group_id, user) + amount <= i128::MAX && old(self).group_saves@[group_id].current_amount + amount <= i128::MAX && old(self).users@.contains_key(user) && old(self).users@[user].total_balance + amount
                <= i128::MAX ==> {
                let group = old(self).group_saves@[group_id];
                let new_current = (group.current_amount + amount) as i128;
                &&& r == Ok::<(), SavingsError>(())
                &&& final(self).group_contributions@ == old(self).group_contributions@.insert(
                    spec_pair_key(group_id, user),
                    (old(self).spec_contribution_of(group_id, user) + amount) as i128,
                )
                &&& final(self).group_saves@ == old(self).group_saves@.insert(
                    group_id,
                    GroupSave {
                        current_amount: new_current,
                        is_completed: new_current >= group.target_amount,
                        ..group
                    },
                )
                &&& final(self).users@ == old(self).users@.insert(
                    user,
                    User {
                        total_balance: (old(self).users@[user].total_balance + amount) as i128,
                        ..old(self).users@[user]
                    },
                )
                &&& final(self).user_rewards@ == old(self).spec_rewards_after_deposit(
                    user,
                    amount as int,
                    now as int,
                )
                &&& *final(self) == (NesteraContract {
                    group_contributions: final(self).group_contributions,
                    group_saves: final(self).group_saves,
                    users: final(self).users,
                    user_rewards: final(self).user_rewards,
                    ..*old(self)
                })
            },
    {
        if self.paused {
            return Err(SavingsError::ContractPaused);
        }
        match self.guard.acquire() {
            Err(e) => {
                return Err(e);
            },
            Ok(()) => {},
        }
        if amount <= 0 {
            self.guard.release();
            return Err(SavingsError::InvalidAmount);
        }
        let (is_completed, current_amount, target_amount) = match self.group_saves.get(&group_id) {
            Some(g) => (g.is_completed, g.current_amount, g.target_amount),
            None => {
                self.guard.release();
                return Err(SavingsError::PlanNotFound);
            },
        };
        if is_completed {
            self.guard.release();
            return Err(SavingsError::PlanCompleted);
        }
        let key = pair_key(group_id, user);
        let contribution = match self.group_contributions.get(&key) {
            Some(c) => *c,
            None => {
                self.guard.release();
                return Err(SavingsError::Unauthorized);
            },
        };
        let new_contribution = match contribution.checked_add(amount) {
            Some(v) => v,
            None => {
                self.guard.release();
                return Err(SavingsError::Overflow);
            },
        };
        let new_current = match current_amount.checked_add(amount) {
            Some(v) => v,
            None => {
                self.guard.release();
                return Err(SavingsError::Overflow);
            },
        };
        let account = match self.users.get(&user) {
            Some(u) => *u,
            None => {
                self.guard.release();
                return Err(SavingsError::UserNotFound);
            },
        };
        let new_total = match account.total_balance.checked_add(amount) {
            Some(t) => t,
            None => {
                self.guard.release();
                return Err(SavingsError::Overflow);
            },
        };
        let group = match self.group_saves.remove(&group_id) {
            Some(g) => g,
            None => {
                self.guard.release();
                return Err(SavingsError::PlanNotFound);
            },
        };
        let completed = new_current >= target_amount;
        self.group_contributions.insert(key, new_contribution);
        self.group_saves.insert(
            group_id,
            GroupSave { current_amount: new_current, is_completed: completed, ..group },
        );
        proof {
            assert(self.group_saves@ =~= old(self).group_saves@.insert(
                group_id,
                GroupSave {
                    current_amount: new_current,
                    is_completed: completed,
                    ..old(self).group_saves@[group_id]
                },
            ));
        }
        self.users.insert(user, User { total_balance: new_total, ..account });
        match self.rewards_config {
            Some(cfg) => {
                let mut ledger = self.get_user_rewards(user);
                let _ = crate::rewards::award_deposit_points(&mut ledger, &cfg, amount, now);
                self.user_rewards.insert(user, ledger);
            },
            None => {},
        }
        self.guard.release();
        Ok(())
    }

    /// Breaks a member's stake in an incomplete group: refunds only the
    /// caller's own contribution, zeroing their ledger and reducing the
    /// group total and the account's total balance by that share alone,
    /// never another member's.
    pub fn break_group_save(&mut self, user: u64, group_id: u64) -> (r: Result<(), SavingsError>)
        ensures
            old(self).spec_balances_nonnegative() ==> final(self).spec_balances_nonnegative(),
            old(self).paused ==> r == Err::<(), SavingsError>(SavingsError::ContractPaused)
                && *final(self) == *old(self),
            !old(self).paused && old(self).guard.locked ==> r == Err::<(), SavingsError>(
                SavingsError::ReentrancyDetected,
            ) && *final(self) == *old(self),
            old(self).spec_open_for() && !old(self).group_saves@.contains_key(group_id) ==> r
                == Err::<(), SavingsError>(SavingsError::PlanNotFound) && *final(self) == *old(self),
            old(self).spec_open_for() && old(self).group_saves@.contains_key(group_id) && old(self).group_saves@[group_id].is_completed ==> r == Err::<(), SavingsError>(
                SavingsError::PlanCompleted,
            ) && *final(self) == *old(self),
            old(self).spec_open_for() && old(self).group_saves@.contains_key(group_id) && !old(self).group_saves@[group_id].is_completed && !old(self).spec_is_group_member(group_id, user)
                ==> r == Err::<(), SavingsError>(SavingsError::Unauthorized) && *final(self) == *old(self),
            old(self).spec_open_for() && old(self).group_saves@.contains_key(group_id) && !old(self).group_saves@[group_id].is_completed && old(self).spec_is_group_member(group_id, user)
                ==> {
                let group = old(self).group_saves@[group_id];
                let contribution = old(self).spec_contribution_of(group_id, user);
                &&& r == Ok::<(), SavingsError>(())
                &&& final(self).group_contributions@ == old(self).group_contributions@.insert(
                    spec_pair_key(group_id, user),
                    0i128,
                )
                &&& final(self).group_saves@ == old(self).group_saves@.insert(
                    group_id,
                    GroupSave {
                        current_amount: crate::rewards::sat_add_i128(
                            group.current_amount as int,
                            -contribution,
                        ) as i128,
                        ..group
                    },
                )
                &&& final(self).users@ == (if old(self).users@.contains_key(user) {
                    old(self).users@.insert(
                        user,
                        User {
                            total_balance: crate::rewards::sat_add_i128(
                                old(self).users@[user].total_balance as int,
                                -contribution,
                            ) as i128,
                            ..old(self).users@[user]
                        },
                    )
                } else {
                    old(self).users@
                })
                &&& *final(self) == (NesteraContract {
                    group_contributions: final(self).group_contributions,
                    group_saves: final(self).group_saves,
                    users: final(self).users,
                    ..*old(self)
                })
            },
    {
        if self.paused {
            return Err(SavingsError::ContractPaused);
        }
        match self.guard.acquire() {
            Err(e) => {
                return Err(e);
            },
            Ok(()) => {},
        }
        let (is_completed, current_amount) = match self.group_saves.get(&group_id) {
            Some(g) => (g.is_completed, g.current_amount),
            None => {
                self.guard.release();
                return Err(SavingsError::PlanNotFound);
            },
        };
        if is_completed {
            self.guard.release();
            return Err(SavingsError::PlanCompleted);
        }
        let key = pair_key(group_id, user);
        let contribution = match self.group_contributions.get(&key) {
            Some(c) => *c,
            None => {
                self.guard.release();
                return Err(SavingsError::Unauthorized);
            },
        };
        let group = match self.group_saves.remove(&group_id) {
            Some(g) => g,
            None => {
                self.guard.release();
                return Err(SavingsError::PlanNotFound);
            },
        };
        let new_current = match current_amount.checked_sub(contribution) {
            Some(v) => v,
            None => if contribution >= 0 {
                i128::MIN
            } else {
                i128::MAX
            },
        };
        self.group_contributions.insert(key, 0);
        self.group_saves.insert(group_id, GroupSave { current_amount: new_current, ..group });
        proof {
            assert(self.group_saves@ =~= old(self).group_saves@.insert(
                group_id,
                GroupSave { current_amount: new_current, ..old(self).group_saves@[group_id] },
            ));
        }
        let account_opt = match self.users.get(&user) {
            Some(u) => Some(*u),
            None => None,
        };
        match account_opt {
            Some(account) => {
                let new_total = match account.total_balance.checked_sub(contribution) {
                    Some(v) => v,
                    None => if contribution >= 0 {
                        i128::MIN
                    } else {
                        i128::MAX
                    },
                };
                self.users.insert(user, User { total_balance: new_total, ..account });
            },
            None => {},
        }
        self.guard.release();
        Ok(())
    }

    /// Registers a yield strategy, enabled, with its risk metadata;
    /// administrator only. Registering an address again overwrites its
    /// record without duplicating it in the registration order.
    pub fn register_strategy(&mut self, caller: u64, strategy_address: u64, risk_level: u32) -> (r:
        Result<(), SavingsError>)
        ensures
            old(self).spec_balances_nonnegative() ==> final(self).spec_balances_nonnegative(),
            !old(self).spec_is_admin(caller) ==> r == Err::<(), SavingsError>(
                SavingsError::Unauthorized,
            ) && *final(self) == *old(self),
            old(self).spec_is_admin(caller) ==> r == Ok::<(), SavingsError>(()) && final(self).strategies@ == old(self).strategies@.insert(
                strategy_address,
                StrategyInfo { address: strategy_address, enabled: true, risk_level },
            ) && final(self).strategy_list@ == (if old(self).strategies@.contains_key(
                strategy_address,
            ) {
                old(self).strategy_list@
            } else {
                old(self).strategy_list@.push(strategy_address)
            }) && *final(self) == (NesteraContract {
                strategies: final(self).strategies,
                strategy_list: final(self).strategy_list,
                ..*old(self)
            }),
    {
        match self.admin {
            Some(stored) => {
                if stored != caller {
                    return Err(SavingsError::Unauthorized);
                }
            },
            None => {
                return Err(SavingsError::Unauthorized);
            },
        }
        if !self.strategies.contains_key(&strategy_address) {
            self.strategy_list.push(strategy_address);
        }
        self.strategies.insert(
            strategy_address,
            StrategyInfo { address: strategy_address, enabled: true, risk_level },
        );
        Ok(())
    }

    /// Disables a registered strategy; administrator only. Disabled
    /// strategies take no new deposits but remain withdrawable.
    pub fn disable_strategy(&mut self, caller: u64, strategy_address: u64) -> (r: Result<
        (),
        SavingsError,
    >)
        ensures
            old(self).spec_balances_nonnegative() ==> final(self).spec_balances_nonnegative(),
            !old(self).spec_is_admin(caller) ==> r == Err::<(), SavingsError>(
                SavingsError::Unauthorized,
            ) && *final(self) == *old(self),
            old(self).spec_is_admin(caller) && !old(self).strategies@.contains_key(strategy_address)
                ==> r == Err::<(), SavingsError>(SavingsError::StrategyNotFound) && *final(self)
                == *old(self),
            old(self).spec_is_admin(caller) && old(self).strategies@.contains_key(strategy_address)
                ==> r == Ok::<(), SavingsError>(()) && final(self).strategies@ == old(self).strategies@.insert(
                strategy_address,
                StrategyInfo { enabled: false, ..old(self).strategies@[strategy_address] },
            ) && *final(self) == (NesteraContract { strategies: final(self).strategies, ..*old(self) }),
    {
        match self.admin {
            Some(stored) => {
                if stored != caller {
                    return Err(SavingsError::Unauthorized);
                }
            },
            None => {
                return Err(SavingsError::Unauthorized);
            },
        }
        let info = match self.strategies.get(&strategy_address) {
            Some(i) => *i,
            None => {
                return Err(SavingsError::StrategyNotFound);
            },
        };
        self.strategies.insert(strategy_address, StrategyInfo { enabled: false, ..info });
        Ok(())
    }

    /// The registry record of a strategy; `StrategyNotFound` without one.
    pub fn get_strategy(&self, strategy_address: u64) -> (r: Result<StrategyInfo, SavingsError>)
        ensures
            self.strategies@.contains_key(strategy_address) ==> r == Ok::<
                StrategyInfo,
                SavingsError,
            >(self.strategies@[strategy_address]),
            !self.strategies@.contains_key(strategy_address) ==> r == Err::<
                StrategyInfo,
                SavingsError,
            >(SavingsError::StrategyNotFound),
    {
        match self.strategies.get(&strategy_address) {
            Some(i) => Ok(*i),
            None => Err(SavingsError::StrategyNotFound),
        }
    }

    /// All registered strategy addresses, in registration order.
    pub fn get_all_strategies(&self) -> (r: Vec<u64>)
        ensures
            r@ == self.strategy_list@,
    {
        let copy = self.strategy_list.clone();
        proof {
            assert(copy@ =~= self.strategy_list@);
        }
        copy
    }

    /// The strategy position of a plan, if any.
    pub fn get_position(&self, position_key: StrategyPositionKey) -> (r: Option<StrategyPosition>)
        ensures
            r == self.spec_position_of(position_key),
    {
        match position_key {
            StrategyPositionKey::Lock(id) => match self.lock_positions.get(&id) {
                Some(p) => Some(*p),
                None => None,
            },
            StrategyPositionKey::Group(id) => match self.group_positions.get(&id) {
                Some(p) => Some(*p),
                None => None,
            },
        }
    }

    /// The strategy position of a lock plan, if any.
    pub fn get_lock_strategy_position(&self, lock_id: u64) -> (r: Option<StrategyPosition>)
        ensures
            r == self.spec_position_of(StrategyPositionKey::Lock(lock_id)),
    {
        self.get_position(StrategyPositionKey::Lock(lock_id))
    }

    /// The strategy position of a group plan, if any.
    pub fn get_group_strategy_position(&self, group_id: u64) -> (r: Option<StrategyPosition>)
        ensures
            r == self.spec_position_of(StrategyPositionKey::Group(group_id)),
    {
        self.get_position(StrategyPositionKey::Group(group_id))
    }

    /// The performance record of a strategy; all zero without one.
    pub fn get_strategy_performance(&self, strategy_address: u64) -> (r: StrategyPerformance)
        ensures
            r == self.spec_performance_of(strategy_address),
    {
        match self.strategy_performance.get(&strategy_address) {
            Some(p) => *p,
            None => StrategyPerformance::zero(),
        }
    }

    /// The position maps after a position is written under a key.
    pub open spec fn spec_positions_updated(
        old_c: NesteraContract,
        new_c: NesteraContract,
        key: StrategyPositionKey,
        position: StrategyPosition,
    ) -> bool {
        match key {
            StrategyPositionKey::Lock(id) => new_c.lock_positions@ == old_c.lock_positions@.insert(
                id,
                position,
            ) && new_c.group_positions@ == old_c.group_positions@,
            StrategyPositionKey::Group(id) => new_c.group_positions@
                == old_c.group_positions@.insert(id, position) && new_c.lock_positions@
                == old_c.lock_positions@,
        }
    }

    /// Writes a position under its key.
    fn put_position(&mut self, position_key: StrategyPositionKey, position: StrategyPosition)
        ensures
            Self::spec_positions_updated(*old(self), *final(self), position_key, position),
            *final(self) == (NesteraContract {
                lock_positions: final(self).lock_positions,
                group_positions: final(self).group_positions,
                ..*old(self)
            }),
    {
        match position_key {
            StrategyPositionKey::Lock(id) => {
                self.lock_positions.insert(id, position);
            },
            StrategyPositionKey::Group(id) => {
                self.group_positions.insert(id, position);
            },
        }
    }

    /// Routes plan principal to a registered, enabled strategy, following
    /// Checks-Effects-Interactions: the checks and the optimistic effects
    /// (a provisional zero-share position, the running principal, the
    /// performance record with a fresh APY estimate) happen here, and the
    /// reentrancy guard stays held for the external deposit call that
    /// follows; `confirm_strategy_deposit` closes the transaction with the
    /// strategy's response. On any failure the guard is released and the
    /// state left unchanged.
    /// The contract of a routing transaction's check-and-effects phase,
    /// relating the state before and after: each failure leaves the state
    /// unchanged, and success applies the optimistic effects and keeps the
    /// reentrancy guard held for the interaction.
    pub open spec fn spec_route_post(
        old_c: NesteraContract,
        new_c: NesteraContract,
        strategy_address: u64,
        position_key: StrategyPositionKey,
        amount: i128,
        r: Result<(), SavingsError>,
    ) -> bool {
        &&& old_c.paused ==> r == Err::<(), SavingsError>(SavingsError::ContractPaused) && new_c
            == old_c
        &&& !old_c.paused && old_c.guard.locked ==> r == Err::<(), SavingsError>(
            SavingsError::ReentrancyDetected,
        ) && new_c == old_c
        &&& old_c.spec_open_for() && amount <= 0 ==> r == Err::<(), SavingsError>(
            SavingsError::InvalidAmount,
        ) && new_c == old_c
        &&& old_c.spec_open_for() && amount > 0 && !old_c.strategies@.contains_key(strategy_address)
            ==> r == Err::<(), SavingsError>(SavingsError::StrategyNotFound) && new_c == old_c
        &&& old_c.spec_open_for() && amount > 0 && old_c.strategies@.contains_key(strategy_address)
            && !old_c.strategies@[strategy_address].enabled ==> r == Err::<(), SavingsError>(
            SavingsError::StrategyDisabled,
        ) && new_c == old_c
        &&& old_c.spec_open_for() && amount > 0 && old_c.strategies@.contains_key(strategy_address)
            && old_c.strategies@[strategy_address].enabled && old_c.spec_principal_of(
            strategy_address,
        ) + amount > i128::MAX ==> r == Err::<(), SavingsError>(SavingsError::Overflow) && new_c
            == old_c
        &&& old_c.spec_open_for() && amount > 0 && old_c.strategies@.contains_key(strategy_address)
            && old_c.strategies@[strategy_address].enabled && old_c.spec_principal_of(
            strategy_address,
        ) + amount <= i128::MAX ==> {
            let perf = old_c.spec_performance_of(strategy_address);
            let new_deposited = crate::rewards::sat_add_i128(
                perf.total_deposited as int,
                amount as int,
            );
            &&& r == Ok::<(), SavingsError>(())
            &&& new_c.guard.locked
            &&& Self::spec_positions_updated(
                old_c,
                new_c,
                position_key,
                StrategyPosition {
                    strategy: strategy_address,
                    principal_deposited: amount,
                    strategy_shares: 0,
                },
            )
            &&& new_c.strategy_principal@ == old_c.strategy_principal@.insert(
                strategy_address,
                (old_c.spec_principal_of(strategy_address) + amount) as i128,
            )
            &&& new_c.strategy_performance@ == old_c.strategy_performance@.insert(
                strategy_address,
                StrategyPerformance {
                    total_deposited: new_deposited as i128,
                    apy_estimate_bps: crate::fees::spec_apy_bps(
                        new_deposited,
                        perf.total_harvested as int,
                    ) as u32,
                    ..perf
                },
            )
            &&& new_c == (NesteraContract {
                guard: ReentrancyGuard { locked: true },
                lock_positions: new_c.lock_positions,
                group_positions: new_c.group_positions,
                strategy_principal: new_c.strategy_principal,
                strategy_performance: new_c.strategy_performance,
                ..old_c
            })
        }
    }

    /// Routes plan principal to a registered, enabled strategy, following
    /// Checks-Effects-Interactions: the checks and the optimistic effects
    /// (a provisional zero-share position, the running principal, the
    /// performance record with a fresh APY estimate) happen here, and the
    /// reentrancy guard stays held for the external deposit call that
    /// follows; `confirm_strategy_deposit` closes the transaction with the
    /// strategy's response. On any failure the guard is released and the
    /// state left unchanged.
    pub fn route_to_strategy(
        &mut self,
        strategy_address: u64,
        position_key: StrategyPositionKey,
        amount: i128,
    ) -> (r: Result<(), SavingsError>)
        ensures
            old(self).spec_balances_nonnegative() ==> final(self).spec_balances_nonnegative(),
            Self::spec_route_post(
                *old(self),
                *final(self),
                strategy_address,
                position_key,
                amount,
                r,
            ),
    {
        if self.paused {
            return Err(SavingsError::ContractPaused);
        }
        match self.guard.acquire() {
            Err(e) => {
                return Err(e);
            },
            Ok(()) => {},
        }
        if amount <= 0 {
            self.guard.release();
            return Err(SavingsError::InvalidAmount);
        }
        let info = match self.strategies.get(&strategy_address) {
            Some(i) => *i,
            None => {
                self.guard.release();
                return Err(SavingsError::StrategyNotFound);
            },
        };
        if !info.enabled {
            self.guard.release();
            return Err(SavingsError::StrategyDisabled);
        }
        let current_principal = match self.strategy_principal.get(&strategy_address) {
            Some(p) => *p,
            None => 0,
        };
        let new_principal = match current_principal.checked_add(amount) {
            Some(p) => p,
            None => {
                self.guard.release();
                return Err(SavingsError::Overflow);
            },
        };
        self.put_position(
            position_key,
            StrategyPosition {
                strategy: strategy_address,
                principal_deposited: amount,
                strategy_shares: 0,
            },
        );
        self.strategy_principal.insert(strategy_address, new_principal);
        let perf = self.get_strategy_performance(strategy_address);
        let new_deposited = match perf.total_deposited.checked_add(amount) {
            Some(v) => v,
            None => i128::MAX,
        };
        let apy = crate::fees::compute_apy_bps(new_deposited, perf.total_harvested);
        self.strategy_performance.insert(
            strategy_address,
            StrategyPerformance { total_deposited: new_deposited, apy_estimate_bps: apy, ..perf },
        );
        Ok(())
    }

    /// Routes a lock plan's principal to a strategy; authorization of the
    /// caller is the host's concern. See `route_to_strategy`.
    pub fn route_lock_to_strategy(&mut self, lock_id: u64, strategy_address: u64, amount: i128) -> (r:
        Result<(), SavingsError>)
        ensures
            old(self).spec_balances_nonnegative() ==> final(self).spec_balances_nonnegative(),
            Self::spec_route_post(
                *old(self),
                *final(self),
                strategy_address,
                StrategyPositionKey::Lock(lock_id),
                amount,
                r,
            ),
    {
        self.route_to_strategy(strategy_address, StrategyPositionKey::Lock(lock_id), amount)
    }

    /// Routes a group plan's pooled principal to a strategy; authorization
    /// of the caller is the host's concern. See `route_to_strategy`.
    pub fn route_group_to_strategy(
        &mut self,
        group_id: u64,
        strategy_address: u64,
        amount: i128,
    ) -> (r: Result<(), SavingsError>)
        ensures
            old(self).spec_balances_nonnegative() ==> final(self).spec_balances_nonnegative(),
            Self::spec_route_post(
                *old(self),
                *final(self),
                strategy_address,
                StrategyPositionKey::Group(group_id),
                amount,
                r,
            ),
    {
        self.route_to_strategy(strategy_address, StrategyPositionKey::Group(group_id), amount)
    }

    /// Closes a routing transaction with the share count the strategy's
    /// deposit call returned: a non-positive count is
    /// `InvalidStrategyResponse` (the host is relied upon to revert the
    /// optimistic effects), a positive one is written into the position.
    /// The reentrancy guard is released either way.
    pub fn confirm_strategy_deposit(&mut self, position_key: StrategyPositionKey, shares: i128) -> (r:
        Result<i128, SavingsError>)
        ensures
            old(self).spec_balances_nonnegative() ==> final(self).spec_balances_nonnegative(),
            shares <= 0 ==> r == Err::<i128, SavingsError>(SavingsError::InvalidStrategyResponse)
                && *final(self) == (NesteraContract {
                guard: ReentrancyGuard { locked: false },
                ..*old(self)
            }),
            shares > 0 && old(self).spec_position_of(position_key) is None ==> r == Err::<
                i128,
                SavingsError,
            >(SavingsError::StrategyNotFound) && *final(self) == (NesteraContract {
                guard: ReentrancyGuard { locked: false },
                ..*old(self)
            }),
            shares > 0 && old(self).spec_position_of(position_key) is Some ==> r == Ok::<
                i128,
                SavingsError,
            >(shares) && Self::spec_positions_updated(
                *old(self),
                *final(self),
                position_key,
                StrategyPosition {
                    strategy_shares: shares,
                    ..old(self).spec_position_of(position_key)->0
                },
            ) && *final(self) == (NesteraContract {
                guard: ReentrancyGuard { locked: false },
                lock_positions: final(self).lock_positions,
                group_positions: final(self).group_positions,
                ..*old(self)
            }),
    {
        if shares <= 0 {
            self.guard.release();
            return Err(SavingsError::InvalidStrategyResponse);
        }
        let position = match self.get_position(position_key) {
            Some(p) => p,
            None => {
                self.guard.release();
                return Err(SavingsError::StrategyNotFound);
            },
        };
        self.put_position(position_key, StrategyPosition { strategy_shares: shares, ..position });
        self.guard.release();
        Ok(shares)
    }

    /// The contract of a strategy withdrawal's check-and-effects phase.
    /// The amount withdrawn is the smaller of the recorded principal and
    /// the balance the strategy reported, so the remaining principal never
    /// goes negative. Each failure, and the 0-principal no-op, leaves the
    /// state unchanged; success applies the effects before the external
    /// withdraw call and keeps the reentrancy guard held for it.
    pub open spec fn spec_withdraw_post(
        old_c: NesteraContract,
        new_c: NesteraContract,
        position_key: StrategyPositionKey,
        strategy_balance: i128,
        r: Result<i128, SavingsError>,
    ) -> bool {
        &&& old_c.paused ==> r == Err::<i128, SavingsError>(SavingsError::ContractPaused) && new_c
            == old_c
        &&& !old_c.paused && old_c.guard.locked ==> r == Err::<i128, SavingsError>(
            SavingsError::ReentrancyDetected,
        ) && new_c == old_c
        &&& old_c.spec_open_for() && old_c.spec_position_of(position_key) is None ==> r == Err::<
            i128,
            SavingsError,
        >(SavingsError::StrategyNotFound) && new_c == old_c
        &&& old_c.spec_open_for() && old_c.spec_position_of(position_key) is Some && old_c.spec_position_of(
            position_key,
        )->0.principal_deposited == 0 ==> r == Ok::<i128, SavingsError>(0) && new_c == old_c
        &&& old_c.spec_open_for() && old_c.spec_position_of(position_key) is Some && old_c.spec_position_of(
            position_key,
        )->0.principal_deposited != 0 && !old_c.strategies@.contains_key(
            old_c.spec_position_of(position_key)->0.strategy,
        ) ==> r == Err::<i128, SavingsError>(SavingsError::StrategyNotFound) && new_c == old_c
        &&& old_c.spec_open_for() && old_c.spec_position_of(position_key) is Some && old_c.spec_position_of(
            position_key,
        )->0.principal_deposited != 0 && old_c.strategies@.contains_key(
            old_c.spec_position_of(position_key)->0.strategy,
        ) && crate::rewards::min_int(
            old_c.spec_position_of(position_key)->0.principal_deposited as int,
            strategy_balance as int,
        ) <= 0 ==> r == Err::<i128, SavingsError>(SavingsError::InsufficientBalance) && new_c
            == old_c
        &&& old_c.spec_open_for() && old_c.spec_position_of(position_key) is Some && old_c.spec_position_of(
            position_key,
        )->0.principal_deposited != 0 && old_c.strategies@.contains_key(
            old_c.spec_position_of(position_key)->0.strategy,
        ) && crate::rewards::min_int(
            old_c.spec_position_of(position_key)->0.principal_deposited as int,
            strategy_balance as int,
        ) > 0 ==> {
            let position = old_c.spec_position_of(position_key)->0;
            let withdraw_amount = crate::rewards::min_int(
                position.principal_deposited as int,
                strategy_balance as int,
            );
            let remaining = position.principal_deposited - withdraw_amount;
            let perf = old_c.spec_performance_of(position.strategy);
            &&& r == Ok::<i128, SavingsError>(withdraw_amount as i128)
            &&& remaining >= 0
            &&& new_c.guard.locked
            &&& Self::spec_positions_updated(
                old_c,
                new_c,
                position_key,
                StrategyPosition {
                    principal_deposited: remaining as i128,
                    strategy_shares: 0,
                    ..position
                },
            )
            &&& new_c.strategy_principal@ == old_c.strategy_principal@.insert(
                position.strategy,
                (if old_c.spec_principal_of(position.strategy) >= withdraw_amount {
                    old_c.spec_principal_of(position.strategy) - withdraw_amount
                } else {
                    0
                }) as i128,
            )
            &&& new_c.strategy_performance@ == old_c.strategy_performance@.insert(
                position.strategy,
                StrategyPerformance {
                    total_withdrawn: crate::rewards::sat_add_i128(
                        perf.total_withdrawn as int,
                        withdraw_amount,
                    ) as i128,
                    ..perf
                },
            )
            &&& new_c == (NesteraContract {
                guard: ReentrancyGuard { locked: true },
                lock_positions: new_c.lock_positions,
                group_positions: new_c.group_positions,
                strategy_principal: new_c.strategy_principal,
                strategy_performance: new_c.strategy_performance,
                ..old_c
            })
        }
    }

    /// Withdraws a plan's funds from its strategy position, following
    /// Checks-Effects-Interactions with the balance the strategy reported:
    /// the amount withdrawn is `min(principal, reported balance)`, the
    /// position and accounting are updated before the external withdraw
    /// call, and the reentrancy guard stays held for it;
    /// `confirm_strategy_withdraw` closes the transaction. A position with
    /// no principal is a no-op returning 0. Disabled strategies remain
    /// withdrawable; only an unregistered one is refused.
    pub fn withdraw_from_strategy(
        &mut self,
        position_key: StrategyPositionKey,
        strategy_balance: i128,
    ) -> (r: Result<i128, SavingsError>)
        ensures
            Self::spec_withdraw_post(*old(self), *final(self), position_key, strategy_balance, r),
            old(self).spec_balances_nonnegative() ==> final(self).spec_balances_nonnegative(),
    {
        if self.paused {
            return Err(SavingsError::ContractPaused);
        }
        match self.guard.acquire() {
            Err(e) => {
                return Err(e);
            },
            Ok(()) => {},
        }
        let position = match self.get_position(position_key) {
            Some(p) => p,
            None => {
                self.guard.release();
                return Err(SavingsError::StrategyNotFound);
            },
        };
        if position.principal_deposited == 0 {
            self.guard.release();
            return Ok(0);
        }
        if !self.strategies.contains_key(&position.strategy) {
            self.guard.release();
            return Err(SavingsError::StrategyNotFound);
        }
        let withdraw_amount = if position.principal_deposited <= strategy_balance {
            position.principal_deposited
        } else {
            strategy_balance
        };
        if withdraw_amount <= 0 {
            self.guard.release();
            return Err(SavingsError::InsufficientBalance);
        }
        let remaining = match position.principal_deposited.checked_sub(withdraw_amount) {
            Some(v) => v,
            None => {
                self.guard.release();
                return Err(SavingsError::Underflow);
            },
        };
        self.put_position(
            position_key,
            StrategyPosition { principal_deposited: remaining, strategy_shares: 0, ..position },
        );
        let current_principal = match self.strategy_principal.get(&position.strategy) {
            Some(p) => *p,
            None => 0,
        };
        let new_principal = if current_principal >= withdraw_amount {
            current_principal - withdraw_amount
        } else {
            0
        };
        self.strategy_principal.insert(position.strategy, new_principal);
        let perf = self.get_strategy_performance(position.strategy);
        let new_withdrawn = match perf.total_withdrawn.checked_add(withdraw_amount) {
            Some(v) => v,
            None => i128::MAX,
        };
        self.strategy_performance.insert(
            position.strategy,
            StrategyPerformance { total_withdrawn: new_withdrawn, ..perf },
        );
        Ok(withdraw_amount)
    }

    /// Withdraws a lock plan's strategy position toward a recipient; the
    /// token transfer to `to` and the caller's authorization are the
    /// host's concern. See `withdraw_from_strategy`.
    pub fn withdraw_lock_strategy(&mut self, lock_id: u64, to: u64, strategy_balance: i128) -> (r:
        Result<i128, SavingsError>)
        ensures
            old(self).spec_balances_nonnegative() ==> final(self).spec_balances_nonnegative(),
            Self::spec_withdraw_post(
                *old(self),
                *final(self),
                StrategyPositionKey::Lock(lock_id),
                strategy_balance,
                r,
            ),
    {
        let _ = to;
        self.withdraw_from_strategy(StrategyPositionKey::Lock(lock_id), strategy_balance)
    }

    /// Withdraws a group plan's strategy position toward a recipient; the
    /// token transfer to `to` and the caller's authorization are the
    /// host's concern. See `withdraw_from_strategy`.
    pub fn withdraw_group_strategy(&mut self, group_id: u64, to: u64, strategy_balance: i128) -> (r:
        Result<i128, SavingsError>)
        ensures
            old(self).spec_balances_nonnegative() ==> final(self).spec_balances_nonnegative(),
            Self::spec_withdraw_post(
                *old(self),
                *final(self),
                StrategyPositionKey::Group(group_id),
                strategy_balance,
                r,
            ),
    {
        let _ = to;
        self.withdraw_from_strategy(StrategyPositionKey::Group(group_id), strategy_balance)
    }

    /// Closes a strategy withdrawal with the amount the strategy's
    /// withdraw call returned: a non-positive amount is
    /// `InvalidStrategyResponse` (the host is relied upon to revert the
    /// staged effects). The reentrancy guard is released either way.
    pub fn confirm_strategy_withdraw(&mut self, returned: i128) -> (r: Result<i128, SavingsError>)
        ensures
            old(self).spec_balances_nonnegative() ==> final(self).spec_balances_nonnegative(),
            returned <= 0 ==> r == Err::<i128, SavingsError>(SavingsError::InvalidStrategyResponse),
            returned > 0 ==> r == Ok::<i128, SavingsError>(returned),
            *final(self) == (NesteraContract { guard: ReentrancyGuard { locked: false }, ..*old(self) }),
    {
        self.guard.release();
        if returned <= 0 {
            return Err(SavingsError::InvalidStrategyResponse);
        }
        Ok(returned)
    }

    /// Opens a harvest transaction against the balance the strategy
    /// reported: computes `profit = reported balance - recorded principal`.
    /// A non-positive profit is a no-op returning 0 with the transaction
    /// closed; a positive one is returned with the reentrancy guard held
    /// for the external harvest call, which `harvest_strategy` then
    /// settles.
    pub fn harvest_begin(&mut self, strategy_address: u64, strategy_balance: i128) -> (r: Result<
        i128,
        SavingsError,
    >)
        ensures
            old(self).spec_balances_nonnegative() ==> final(self).spec_balances_nonnegative(),
            old(self).paused ==> r == Err::<i128, SavingsError>(SavingsError::ContractPaused)
                && *final(self) == *old(self),
            !old(self).paused && old(self).guard.locked ==> r == Err::<i128, SavingsError>(
                SavingsError::ReentrancyDetected,
            ) && *final(self) == *old(self),
            old(self).spec_open_for() && !old(self).strategies@.contains_key(strategy_address) ==> r
                == Err::<i128, SavingsError>(SavingsError::StrategyNotFound) && *final(self) == *old(
                self,
            ),
            old(self).spec_open_for() && old(self).strategies@.contains_key(strategy_address)
                && strategy_balance <= old(self).spec_principal_of(strategy_address) ==> r == Ok::<
                i128,
                SavingsError,
            >(0) && *final(self) == *old(self),
            old(self).spec_open_for() && old(self).strategies@.contains_key(strategy_address)
                && strategy_balance > old(self).spec_principal_of(strategy_address)
                && strategy_balance - old(self).spec_principal_of(strategy_address) > i128::MAX ==> r
                == Err::<i128, SavingsError>(SavingsError::Overflow) && *final(self) == *old(self),
            old(self).spec_open_for() && old(self).strategies@.contains_key(strategy_address)
                && strategy_balance > old(self).spec_principal_of(strategy_address)
                && strategy_balance - old(self).spec_principal_of(strategy_address) <= i128::MAX
                ==> r == Ok::<i128, SavingsError>(
                (strategy_balance - old(self).spec_principal_of(strategy_address)) as i128,
            ) && *final(self) == (NesteraContract {
                guard: ReentrancyGuard { locked: true },
                ..*old(self)
            }),
    {
        if self.paused {
            return Err(SavingsError::ContractPaused);
        }
        match self.guard.acquire() {
            Err(e) => {
                return Err(e);
            },
            Ok(()) => {},
        }
        if !self.strategies.contains_key(&strategy_address) {
            self.guard.release();
            return Err(SavingsError::StrategyNotFound);
        }
        let principal = match self.strategy_principal.get(&strategy_address) {
            Some(p) => *p,
            None => 0,
        };
        if strategy_balance <= principal {
            self.guard.release();
            return Ok(0);
        }
        match strategy_balance.checked_sub(principal) {
            Some(profit) => Ok(profit),
            None => {
                self.guard.release();
                Err(SavingsError::Overflow)
            },
        }
    }

    /// The treasury's share of a harvested yield:
    /// `actual_yield * protocol_fee_bps / 10_000`, 0 at a zero fee rate.
    pub open spec fn spec_treasury_fee(actual_yield: int, fee_bps: int) -> int {
        if fee_bps > 0 {
            crate::fees::div_trunc(actual_yield * fee_bps, 10_000)
        } else {
            0
        }
    }

    /// Distributes a positive harvested yield: the treasury fee to the
    /// treasury's protocol balance, the rest to the strategy's yield pool,
    /// and the performance totals with a fresh APY estimate. Releases the
    /// reentrancy guard on every outcome; a failure changes nothing else.
    #[verifier::rlimit(100)]
    fn settle_harvest(&mut self, strategy_address: u64, actual_yield: i128, config: Config) -> (r:
        Result<i128, SavingsError>)
        requires
            actual_yield > 0,
        ensures
            old(self).spec_balances_nonnegative() ==> final(self).spec_balances_nonnegative(),
            !(r is Ok) ==> *final(self) == (NesteraContract {
                guard: ReentrancyGuard { locked: false },
                ..*old(self)
            }),
            ({
                let fee = Self::spec_treasury_fee(actual_yield as int, config.protocol_fee_bps as int);
                let user_yield = actual_yield - fee;
                let perf = old(self).spec_performance_of(strategy_address);
                let new_harvested = crate::rewards::sat_add_i128(
                    perf.total_harvested as int,
                    actual_yield as int,
                );
                if config.protocol_fee_bps > 0 && actual_yield * config.protocol_fee_bps
                    > i128::MAX {
                    r == Err::<i128, SavingsError>(SavingsError::Overflow)
                } else if user_yield < 0 {
                    r == Err::<i128, SavingsError>(SavingsError::Underflow)
                } else if fee > 0 && old(self).spec_protocol_balance_of(config.treasury) + fee
                    > i128::MAX {
                    r == Err::<i128, SavingsError>(SavingsError::Overflow)
                } else if user_yield > 0 && old(self).spec_yield_of(strategy_address) + user_yield
                    > i128::MAX {
                    r == Err::<i128, SavingsError>(SavingsError::Overflow)
                } else {
                    &&& r == Ok::<i128, SavingsError>(actual_yield)
                    &&& final(self).protocol_balances@ == (if fee > 0 {
                        old(self).protocol_balances@.insert(
                            config.treasury,
                            (old(self).spec_protocol_balance_of(config.treasury) + fee) as i128,
                        )
                    } else {
                        old(self).protocol_balances@
                    })
                    &&& final(self).strategy_yield@ == (if user_yield > 0 {
                        old(self).strategy_yield@.insert(
                            strategy_address,
                            (old(self).spec_yield_of(strategy_address) + user_yield) as i128,
                        )
                    } else {
                        old(self).strategy_yield@
                    })
                    &&& final(self).strategy_performance@ == old(
                        self,
                    ).strategy_performance@.insert(
                        strategy_address,
                        StrategyPerformance {
                            total_harvested: new_harvested as i128,
                            apy_estimate_bps: crate::fees::spec_apy_bps(
                                perf.total_deposited as int,
                                new_harvested,
                            ) as u32,
                            ..perf
                        },
                    )
                    &&& *final(self) == (NesteraContract {
                        guard: ReentrancyGuard { locked: false },
                        protocol_balances: final(self).protocol_balances,
                        strategy_yield: final(self).strategy_yield,
                        strategy_performance: final(self).strategy_performance,
                        ..*old(self)
                    })
                }
            }),
    {
        let treasury_fee = if config.protocol_fee_bps > 0 {
            match actual_yield.checked_mul(config.protocol_fee_bps as i128) {
                Some(t) => t / 10_000,
                None => {
                    self.guard.release();
                    return Err(SavingsError::Overflow);
                },
            }
        } else {
            0
        };
        let user_yield = match actual_yield.checked_sub(treasury_fee) {
            Some(v) => v,
            None => {
                self.guard.release();
                return Err(SavingsError::Underflow);
            },
        };
        if user_yield < 0 {
            self.guard.release();
            return Err(SavingsError::Underflow);
        }
        let new_treasury_balance: Option<i128> = if treasury_fee > 0 {
            let current = match self.protocol_balances.get(&config.treasury) {
                Some(b) => *b,
                None => 0,
            };
            match current.checked_add(treasury_fee) {
                Some(v) => Some(v),
                None => {
                    self.guard.release();
                    return Err(SavingsError::Overflow);
                },
            }
        } else {
            None
        };
        let new_strategy_yield: Option<i128> = if user_yield > 0 {
            let current = match self.strategy_yield.get(&strategy_address) {
                Some(y) => *y,
                None => 0,
            };
            match current.checked_add(user_yield) {
                Some(v) => Some(v),
                None => {
                    self.guard.release();
                    return Err(SavingsError::Overflow);
                },
            }
        } else {
            None
        };
        match new_treasury_balance {
            Some(v) => {
                self.protocol_balances.insert(config.treasury, v);
            },
            None => {},
        }
        match new_strategy_yield {
            Some(v) => {
                self.strategy_yield.insert(strategy_address, v);
            },
            None => {},
        }
        let perf = self.get_strategy_performance(strategy_address);
        let new_harvested = match perf.total_harvested.checked_add(actual_yield) {
            Some(v) => v,
            None => i128::MAX,
        };
        let apy = crate::fees::compute_apy_bps(perf.total_deposited, new_harvested);
        self.strategy_performance.insert(
            strategy_address,
            StrategyPerformance { total_harvested: new_harvested, apy_estimate_bps: apy, ..perf },
        );
        self.guard.release();
        Ok(actual_yield)
    }

    /// Settles a harvest with what the strategy's harvest call returned.
    /// The distributable yield is `min(profit, harvested)`, profit being
    /// recomputed from the reported balance under the still-held guard; it
    /// splits into the treasury fee and the users' yield pool, and the
    /// performance record gains the yield and a fresh APY estimate. A
    /// non-positive yield is a no-op returning 0. The reentrancy guard is
    /// released on every outcome.
    pub fn harvest_strategy(
        &mut self,
        strategy_address: u64,
        strategy_balance: i128,
        harvested: i128,
    ) -> (r: Result<i128, SavingsError>)
        ensures
            old(self).spec_balances_nonnegative() ==> final(self).spec_balances_nonnegative(),
            !(r is Ok && r->Ok_0 > 0) ==> *final(self) == (NesteraContract {
                guard: ReentrancyGuard { locked: false },
                ..*old(self)
            }),
            !old(self).strategies@.contains_key(strategy_address) ==> r == Err::<
                i128,
                SavingsError,
            >(SavingsError::StrategyNotFound),
            old(self).strategies@.contains_key(strategy_address) && strategy_balance - old(
                self,
            ).spec_principal_of(strategy_address) > i128::MAX ==> r == Err::<i128, SavingsError>(
                SavingsError::Overflow,
            ),
            old(self).strategies@.contains_key(strategy_address) && strategy_balance - old(
                self,
            ).spec_principal_of(strategy_address) <= i128::MAX && crate::rewards::min_int(
                strategy_balance - old(self).spec_principal_of(strategy_address),
                harvested as int,
            ) <= 0 ==> r == Ok::<i128, SavingsError>(0),
            old(self).strategies@.contains_key(strategy_address) && strategy_balance - old(
                self,
            ).spec_principal_of(strategy_address) <= i128::MAX && crate::rewards::min_int(
                strategy_balance - old(self).spec_principal_of(strategy_address),
                harvested as int,
            ) > 0 && old(self).config is None ==> r == Err::<i128, SavingsError>(
                SavingsError::InternalError,
            ),
            old(self).strategies@.contains_key(strategy_address) && strategy_balance - old(
                self,
            ).spec_principal_of(strategy_address) <= i128::MAX && crate::rewards::min_int(
                strategy_balance - old(self).spec_principal_of(strategy_address),
                harvested as int,
            ) > 0 && old(self).config is Some ==> {
                let actual_yield = crate::rewards::min_int(
                    strategy_balance - old(self).spec_principal_of(strategy_address),
                    harvested as int,
                );
                let config = old(self).config->0;
                let fee = Self::spec_treasury_fee(actual_yield, config.protocol_fee_bps as int);
                let user_yield = actual_yield - fee;
                let perf = old(self).spec_performance_of(strategy_address);
                let new_harvested = crate::rewards::sat_add_i128(
                    perf.total_harvested as int,
                    actual_yield,
                );
                if config.protocol_fee_bps > 0 && actual_yield * config.protocol_fee_bps
                    > i128::MAX {
                    r == Err::<i128, SavingsError>(SavingsError::Overflow)
                } else if user_yield < 0 {
                    r == Err::<i128, SavingsError>(SavingsError::Underflow)
                } else if fee > 0 && old(self).spec_protocol_balance_of(config.treasury) + fee
                    > i128::MAX {
                    r == Err::<i128, SavingsError>(SavingsError::Overflow)
                } else if user_yield > 0 && old(self).spec_yield_of(strategy_address) + user_yield
                    > i128::MAX {
                    r == Err::<i128, SavingsError>(SavingsError::Overflow)
                } else {
                    &&& r == Ok::<i128, SavingsError>(actual_yield as i128)
                    &&& final(self).protocol_balances@ == (if fee > 0 {
                        old(self).protocol_balances@.insert(
                            config.treasury,
                            (old(self).spec_protocol_balance_of(config.treasury) + fee) as i128,
                        )
                    } else {
                        old(self).protocol_balances@
                    })
                    &&& final(self).strategy_yield@ == (if user_yield > 0 {
                        old(self).strategy_yield@.insert(
                            strategy_address,
                            (old(self).spec_yield_of(strategy_address) + user_yield) as i128,
                        )
                    } else {
                        old(self).strategy_yield@
                    })
                    &&& final(self).strategy_performance@ == old(
                        self,
                    ).strategy_performance@.insert(
                        strategy_address,
                        StrategyPerformance {
                            total_harvested: new_harvested as i128,
                            apy_estimate_bps: crate::fees::spec_apy_bps(
                                perf.total_deposited as int,
                                new_harvested,
                            ) as u32,
                            ..perf
                        },
                    )
                    &&& *final(self) == (NesteraContract {
                        guard: ReentrancyGuard { locked: false },
                        protocol_balances: final(self).protocol_balances,
                        strategy_yield: final(self).strategy_yield,
                        strategy_performance: final(self).strategy_performance,
                        ..*old(self)
                    })
                }
            },
    {
        if !self.strategies.contains_key(&strategy_address) {
            self.guard.release();
            return Err(SavingsError::StrategyNotFound);
        }
        let principal = match self.strategy_principal.get(&strategy_address) {
            Some(p) => *p,
            None => 0,
        };
        let profit = if strategy_balance <= principal {
            0
        } else {
            match strategy_balance.checked_sub(principal) {
                Some(p) => p,
                None => {
                    self.guard.release();
                    return Err(SavingsError::Overflow);
                },
            }
        };
        let actual_yield = if profit <= harvested {
            profit
        } else {
            harvested
        };
        if actual_yield <= 0 {
            self.guard.release();
            return Ok(0);
        }
        let config = match self.config {
            Some(c) => c,
            None => {
                self.guard.release();
                return Err(SavingsError::InternalError);
            },
        };
        self.settle_harvest(strategy_address, actual_yield, config)
    }

    /// Whether a plan was shut down by an emergency withdrawal.
    pub fn is_strategy_disabled(&self, plan_type: PlanType, plan_id: u64) -> (r: bool)
        ensures
            r == self.disabled_plans@.contains_key(
                spec_pair_key(plan_type.spec_tag() as u64, plan_id),
            ),
    {
        let key = pair_key(plan_type.tag(), plan_id);
        self.disabled_plans.contains_key(&key)
    }

    /// Force-withdraws a plan's funds and shuts the plan down, bypassing
    /// maturity and completion rules; administrator only. The plan's kind
    /// decides what leaves: a flexi plan's whole balance, a lock's locked
    /// amount, a goal's accumulated amount, or the named user's own group
    /// contribution. The account's total balance falls by the same amount,
    /// saturating at the integer bounds, and the (kind, id) pair is
    /// marked disabled so the path cannot run twice.
    pub fn emergency_withdraw(
        &mut self,
        admin: u64,
        user: u64,
        plan_type: PlanType,
        plan_id: u64,
    ) -> (r: Result<i128, SavingsError>)
        ensures
            old(self).spec_balances_nonnegative() ==> final(self).spec_balances_nonnegative(),
            !old(self).spec_is_admin(admin) ==> r == Err::<i128, SavingsError>(
                SavingsError::Unauthorized,
            ) && *final(self) == *old(self),
            old(self).spec_is_admin(admin) && old(self).disabled_plans@.contains_key(
                spec_pair_key(plan_type.spec_tag() as u64, plan_id),
            ) ==> r == Err::<i128, SavingsError>(SavingsError::StrategyDisabled) && *final(self)
                == *old(self),
            old(self).spec_is_admin(admin) && !old(self).disabled_plans@.contains_key(
                spec_pair_key(plan_type.spec_tag() as u64, plan_id),
            ) && plan_type == PlanType::Flexi ==> {
                let balance = old(self).spec_flexi_of(user);
                &&& r == Ok::<i128, SavingsError>(balance as i128)
                &&& final(self).flexi_balances@ == (if balance > 0 {
                    old(self).flexi_balances@.insert(user, 0i128)
                } else {
                    old(self).flexi_balances@
                })
                &&& final(self).users@ == (if balance > 0 && old(self).users@.contains_key(user) {
                    old(self).users@.insert(
                        user,
                        User {
                            total_balance: crate::rewards::sat_add_i128(
                                old(self).users@[user].total_balance as int,
                                -balance,
                            ) as i128,
                            ..old(self).users@[user]
                        },
                    )
                } else {
                    old(self).users@
                })
                &&& final(self).disabled_plans@ == old(self).disabled_plans@.insert(
                    spec_pair_key(plan_type.spec_tag() as u64, plan_id),
                    true,
                )
                &&& *final(self) == (NesteraContract {
                    flexi_balances: final(self).flexi_balances,
                    users: final(self).users,
                    disabled_plans: final(self).disabled_plans,
                    ..*old(self)
                })
            },
            old(self).spec_is_admin(admin) && !old(self).disabled_plans@.contains_key(
                spec_pair_key(plan_type.spec_tag() as u64, plan_id),
            ) && plan_type == PlanType::Lock ==> {
                if !old(self).lock_saves@.contains_key(plan_id) {
                    r == Err::<i128, SavingsError>(SavingsError::LockNotFound) && *final(self)
                        == *old(self)
                } else if old(self).lock_saves@[plan_id].is_withdrawn {
                    r == Err::<i128, SavingsError>(SavingsError::AlreadyWithdrawn) && *final(self)
                        == *old(self)
                } else {
                    let lock = old(self).lock_saves@[plan_id];
                    &&& r == Ok::<i128, SavingsError>(lock.amount)
                    &&& final(self).lock_saves@ == old(self).lock_saves@.insert(
                        plan_id,
                        LockSave { is_withdrawn: true, ..lock },
                    )
                    &&& final(self).users@ == (if old(self).users@.contains_key(user) {
                        old(self).users@.insert(
                            user,
                            User {
                                total_balance: crate::rewards::sat_add_i128(
                                    old(self).users@[user].total_balance as int,
                                    -(lock.amount as int),
                                ) as i128,
                                ..old(self).users@[user]
                            },
                        )
                    } else {
                        old(self).users@
                    })
                    &&& final(self).disabled_plans@ == old(self).disabled_plans@.insert(
                        spec_pair_key(plan_type.spec_tag() as u64, plan_id),
                        true,
                    )
                    &&& *final(self) == (NesteraContract {
                        lock_saves: final(self).lock_saves,
                        users: final(self).users,
                        disabled_plans: final(self).disabled_plans,
                        ..*old(self)
                    })
                }
            },
            old(self).spec_is_admin(admin) && !old(self).disabled_plans@.contains_key(
                spec_pair_key(plan_type.spec_tag() as u64, plan_id),
            ) && plan_type == PlanType::Goal ==> {
                if !old(self).goal_saves@.contains_key(plan_id) {
                    r == Err::<i128, SavingsError>(SavingsError::PlanNotFound) && *final(self)
                        == *old(self)
                } else if old(self).goal_saves@[plan_id].is_withdrawn {
                    r == Err::<i128, SavingsError>(SavingsError::AlreadyWithdrawn) && *final(self)
                        == *old(self)
                } else {
                    let goal = old(self).goal_saves@[plan_id];
                    &&& r == Ok::<i128, SavingsError>(goal.current_amount)
                    &&& final(self).goal_saves@ == old(self).goal_saves@.insert(
                        plan_id,
                        GoalSave { is_withdrawn: true, ..goal },
                    )
                    &&& final(self).users@ == (if old(self).users@.contains_key(user) {
                        old(self).users@.insert(
                            user,
                            User {
                                total_balance: crate::rewards::sat_add_i128(
                                    old(self).users@[user].total_balance as int,
                                    -(goal.current_amount as int),
                                ) as i128,
                                ..old(self).users@[user]
                            },
                        )
                    } else {
                        old(self).users@
                    })
                    &&& final(self).disabled_plans@ == old(self).disabled_plans@.insert(
                        spec_pair_key(plan_type.spec_tag() as u64, plan_id),
                        true,
                    )
                    &&& *final(self) == (NesteraContract {
                        goal_saves: final(self).goal_saves,
                        users: final(self).users,
                        disabled_plans: final(self).disabled_plans,
                        ..*old(self)
                    })
                }
            },
            old(self).spec_is_admin(admin) && !old(self).disabled_plans@.contains_key(
                spec_pair_key(plan_type.spec_tag() as u64, plan_id),
            ) && plan_type == PlanType::Group ==> {
                if !old(self).group_saves@.contains_key(plan_id) {
                    r == Err::<i128, SavingsError>(SavingsError::PlanNotFound) && *final(self)
                        == *old(self)
                } else if old(self).group_saves@[plan_id].is_completed {
                    r == Err::<i128, SavingsError>(SavingsError::PlanCompleted) && *final(self)
                        == *old(self)
                } else {
                    let contribution = old(self).spec_contribution_of(plan_id, user);
                    &&& r == Ok::<i128, SavingsError>(contribution as i128)
                    &&& final(self).group_contributions@ == (if contribution > 0 {
                        old(self).group_contributions@.insert(spec_pair_key(plan_id, user), 0i128)
                    } else {
                        old(self).group_contributions@
                    })
                    &&& final(self).group_saves@ == (if contribution > 0 {
                        old(self).group_saves@.insert(
                            plan_id,
                            GroupSave {
                                current_amount: crate::rewards::sat_add_i128(
                                    old(self).group_saves@[plan_id].current_amount as int,
                                    -contribution,
                                ) as i128,
                                ..old(self).group_saves@[plan_id]
                            },
                        )
                    } else {
                        old(self).group_saves@
                    })
                    &&& final(self).users@ == (if contribution > 0 && old(
                        self,
                    ).users@.contains_key(user) {
                        old(self).users@.insert(
                            user,
                            User {
                                total_balance: crate::rewards::sat_add_i128(
                                    old(self).users@[user].total_balance as int,
                                    -contribution,
                                ) as i128,
                                ..old(self).users@[user]
                            },
                        )
                    } else {
                        old(self).users@
                    })
                    &&& final(self).disabled_plans@ == old(self).disabled_plans@.insert(
                        spec_pair_key(plan_type.spec_tag() as u64, plan_id),
                        true,
                    )
                    &&& *final(self) == (NesteraContract {
                        group_contributions: final(self).group_contributions,
                        group_saves: final(self).group_saves,
                        users: final(self).users,
                        disabled_plans: final(self).disabled_plans,
                        ..*old(self)
                    })
                }
            },
    {
        match self.admin {
            Some(stored) => {
                if stored != admin {
                    return Err(SavingsError::Unauthorized);
                }
            },
            None => {
                return Err(SavingsError::Unauthorized);
            },
        }
        let disabled_key = pair_key(plan_type.tag(), plan_id);
        if self.disabled_plans.contains_key(&disabled_key) {
            return Err(SavingsError::StrategyDisabled);
        }
        let withdrawn_amount: i128 = match plan_type {
            PlanType::Flexi => {
                let balance = self.get_flexi_balance(user);
                if balance > 0 {
                    self.flexi_balances.insert(user, 0);
                    self.debit_total_balance(user, balance);
                }
                balance
            },
            PlanType::Lock => {
                let lock = match self.lock_saves.get(&plan_id) {
                    Some(l) => *l,
                    None => {
                        return Err(SavingsError::LockNotFound);
                    },
                };
                if lock.is_withdrawn {
                    return Err(SavingsError::AlreadyWithdrawn);
                }
                self.lock_saves.insert(plan_id, LockSave { is_withdrawn: true, ..lock });
                self.debit_total_balance(user, lock.amount);
                lock.amount
            },
            PlanType::Goal => {
                let goal = match self.goal_saves.get(&plan_id) {
                    Some(g) => *g,
                    None => {
                        return Err(SavingsError::PlanNotFound);
                    },
                };
                if goal.is_withdrawn {
                    return Err(SavingsError::AlreadyWithdrawn);
                }
                self.goal_saves.insert(plan_id, GoalSave { is_withdrawn: true, ..goal });
                self.debit_total_balance(user, goal.current_amount);
                goal.current_amount
            },
            PlanType::Group => {
                let (is_completed, current_amount) = match self.group_saves.get(&plan_id) {
                    Some(g) => (g.is_completed, g.current_amount),
                    None => {
                        return Err(SavingsError::PlanNotFound);
                    },
                };
                if is_completed {
                    return Err(SavingsError::PlanCompleted);
                }
                let contribution_key = pair_key(plan_id, user);
                let contribution = match self.group_contributions.get(&contribution_key) {
                    Some(c) => *c,
                    None => 0,
                };
                if contribution > 0 {
                    self.group_contributions.insert(contribution_key, 0);
                    let new_current = match current_amount.checked_sub(contribution) {
                        Some(v) => v,
                        None => i128::MIN,
                    };
                    let group = match self.group_saves.remove(&plan_id) {
                        Some(g) => g,
                        None => {
                            return Err(SavingsError::PlanNotFound);
                        },
                    };
                    self.group_saves.insert(
                        plan_id,
                        GroupSave { current_amount: new_current, ..group },
                    );
                    proof {
                        assert(self.group_saves@ =~= old(self).group_saves@.insert(
                            plan_id,
                            GroupSave {
                                current_amount: new_current,
                                ..old(self).group_saves@[plan_id]
                            },
                        ));
                    }
                    self.debit_total_balance(user, contribution);
                }
                contribution
            },
        };
        self.disabled_plans.insert(disabled_key, true);
        Ok(withdrawn_amount)
    }

    /// Records the rewards engine's configuration; only the recorded
    /// administrator, and only once. The bonus rates must be within
    /// 0-10,000 basis points and the minimum deposit non-negative.
    pub fn init_rewards_config(
        &mut self,
        admin: u64,
        points_per_token: u32,
        streak_bonus_bps: u32,
        long_lock_bonus_bps: u32,
        goal_completion_bonus: u32,
        enabled: bool,
        min_deposit_for_rewards: i128,
        action_cooldown_seconds: u64,
        max_daily_points: u128,
        max_streak_multiplier: u32,
    ) -> (r: Result<(), SavingsError>)
        ensures
            old(self).spec_balances_nonnegative() ==> final(self).spec_balances_nonnegative(),
            !old(self).spec_is_admin(admin) ==> r == Err::<(), SavingsError>(
                SavingsError::Unauthorized,
            ) && *final(self) == *old(self),
            old(self).spec_is_admin(admin) && old(self).rewards_config is Some ==> r == Err::<
                (),
                SavingsError,
            >(SavingsError::ConfigAlreadyInitialized) && *final(self) == *old(self),
            old(self).spec_is_admin(admin) && old(self).rewards_config is None
                && !crate::rewards::spec_config_valid(
                RewardsConfig {
                    points_per_token,
                    streak_bonus_bps,
                    long_lock_bonus_bps,
                    goal_completion_bonus,
                    enabled,
                    min_deposit_for_rewards,
                    action_cooldown_seconds,
                    max_daily_points,
                    max_streak_multiplier,
                },
            ) ==> r is Err && *final(self) == *old(self),
            old(self).spec_is_admin(admin) && old(self).rewards_config is None
                && crate::rewards::spec_config_valid(
                RewardsConfig {
                    points_per_token,
                    streak_bonus_bps,
                    long_lock_bonus_bps,
                    goal_completion_bonus,
                    enabled,
                    min_deposit_for_rewards,
                    action_cooldown_seconds,
                    max_daily_points,
                    max_streak_multiplier,
                },
            ) ==> r == Ok::<(), SavingsError>(()) && *final(self) == (NesteraContract {
                rewards_config: Some(
                    RewardsConfig {
                        points_per_token,
                        streak_bonus_bps,
                        long_lock_bonus_bps,
                        goal_completion_bonus,
                        enabled,
                        min_deposit_for_rewards,
                        action_cooldown_seconds,
                        max_daily_points,
                        max_streak_multiplier,
                    },
                ),
                ..*old(self)
            }),
    {
        match self.admin {
            Some(stored) => {
                if stored != admin {
                    return Err(SavingsError::Unauthorized);
                }
            },
            None => {
                return Err(SavingsError::Unauthorized);
            },
        }
        let config = RewardsConfig {
            points_per_token,
            streak_bonus_bps,
            long_lock_bonus_bps,
            goal_completion_bonus,
            enabled,
            min_deposit_for_rewards,
            action_cooldown_seconds,
            max_daily_points,
            max_streak_multiplier,
        };
        self.initialize_rewards_config(config)
    }

    /// Records the rewards engine's configuration, once; refuses
    /// out-of-range tunables. Authorization is the host's concern here; an
    /// administrator must have been recorded.
    pub fn initialize_rewards_config(&mut self, config: RewardsConfig) -> (r: Result<
        (),
        SavingsError,
    >)
        ensures
            old(self).spec_balances_nonnegative() ==> final(self).spec_balances_nonnegative(),
            old(self).admin is None ==> r == Err::<(), SavingsError>(SavingsError::Unauthorized)
                && *final(self) == *old(self),
            old(self).admin is Some && old(self).rewards_config is Some ==> r == Err::<
                (),
                SavingsError,
            >(SavingsError::ConfigAlreadyInitialized) && *final(self) == *old(self),
            old(self).admin is Some && old(self).rewards_config is None
                && !crate::rewards::spec_config_valid(config) ==> r is Err && *final(self) == *old(
                self,
            ),
            old(self).admin is Some && old(self).rewards_config is None
                && crate::rewards::spec_config_valid(config) ==> r == Ok::<(), SavingsError>(())
                && *final(self) == (NesteraContract { rewards_config: Some(config), ..*old(self) }),
    {
        if self.admin.is_none() {
            return Err(SavingsError::Unauthorized);
        }
        if self.rewards_config.is_some() {
            return Err(SavingsError::ConfigAlreadyInitialized);
        }
        match crate::rewards::validate_config(&config) {
            Ok(()) => {},
            Err(e) => {
                return Err(e);
            },
        }
        self.rewards_config = Some(config);
        Ok(())
    }

    /// Replaces the rewards engine's configuration; the recorded
    /// administrator only, and the same range rules as at initialization.
    pub fn update_rewards_config(&mut self, admin: u64, config: RewardsConfig) -> (r: Result<
        (),
        SavingsError,
    >)
        ensures
            old(self).spec_balances_nonnegative() ==> final(self).spec_balances_nonnegative(),
            !old(self).spec_is_admin(admin) ==> r == Err::<(), SavingsError>(
                SavingsError::Unauthorized,
            ) && *final(self) == *old(self),
            old(self).spec_is_admin(admin) && !crate::rewards::spec_config_valid(config) ==> r
                is Err && *final(self) == *old(self),
            old(self).spec_is_admin(admin) && crate::rewards::spec_config_valid(config) ==> r
                == Ok::<(), SavingsError>(()) && *final(self) == (NesteraContract {
                rewards_config: Some(config),
                ..*old(self)
            }),
    {
        match self.admin {
            Some(stored) => {
                if stored != admin {
                    return Err(SavingsError::Unauthorized);
                }
            },
            None => {
                return Err(SavingsError::Unauthorized);
            },
        }
        match crate::rewards::validate_config(&config) {
            Ok(()) => {},
            Err(e) => {
                return Err(e);
            },
        }
        self.rewards_config = Some(config);
        Ok(())
    }

    /// The rewards engine's configuration; `InternalError` before it is
    /// set.
    pub fn get_rewards_config(&self) -> (r: Result<RewardsConfig, SavingsError>)
        ensures
            self.rewards_config is Some ==> r == Ok::<RewardsConfig, SavingsError>(
                self.rewards_config->0,
            ),
            self.rewards_config is None ==> r == Err::<RewardsConfig, SavingsError>(
                SavingsError::InternalError,
            ),
    {
        match self.rewards_config {
            Some(c) => Ok(c),
            None => Err(SavingsError::InternalError),
        }
    }

    /// Re-evaluates a user's streak against the continuation window and
    /// returns the streak that now stands; a ledgerless user stays
    /// ledgerless at streak 0.
    pub fn update_streak(&mut self, user: u64, now: u64) -> (r: Result<u32, SavingsError>)
        ensures
            old(self).spec_balances_nonnegative() ==> final(self).spec_balances_nonnegative(),
            !old(self).user_rewards@.contains_key(user) ==> r == Ok::<u32, SavingsError>(0)
                && *final(self) == *old(self),
            old(self).user_rewards@.contains_key(user) ==> r == Ok::<u32, SavingsError>(
                crate::rewards::spec_update_streak(
                    old(self).user_rewards@[user],
                    now as int,
                ).current_streak,
            ) && final(self).user_rewards@ == old(self).user_rewards@.insert(
                user,
                crate::rewards::spec_update_streak(old(self).user_rewards@[user], now as int),
            ) && *final(self) == (NesteraContract {
                user_rewards: final(self).user_rewards,
                ..*old(self)
            }),
    {
        let mut ledger = match self.user_rewards.get(&user) {
            Some(l) => *l,
            None => {
                return Ok(0);
            },
        };
        let streak = crate::rewards::update_streak(&mut ledger, now);
        self.user_rewards.insert(user, ledger);
        Ok(streak)
    }

    /// Redeems points from a user's rewards balance: fails with
    /// `InsufficientBalance`, changing nothing, when the amount exceeds the
    /// points at hand; else decrements the balance by exactly the amount.
    pub fn redeem_points(&mut self, user: u64, amount: u128) -> (r: Result<(), SavingsError>)
        ensures
            old(self).spec_balances_nonnegative() ==> final(self).spec_balances_nonnegative(),
            amount > old(self).spec_rewards_of(user).total_points ==> r == Err::<(), SavingsError>(
                SavingsError::InsufficientBalance,
            ) && *final(self) == *old(self),
            amount <= old(self).spec_rewards_of(user).total_points ==> r == Ok::<(), SavingsError>(
                (),
            ) && final(self).user_rewards@ == old(self).user_rewards@.insert(
                user,
                UserRewards {
                    total_points: (old(self).spec_rewards_of(user).total_points - amount) as u128,
                    ..old(self).spec_rewards_of(user)
                },
            ) && *final(self) == (NesteraContract {
                user_rewards: final(self).user_rewards,
                ..*old(self)
            }),
    {
        let mut ledger = self.get_user_rewards(user);
        match crate::rewards::redeem_points(&mut ledger, amount) {
            Ok(()) => {},
            Err(e) => {
                return Err(e);
            },
        }
        self.user_rewards.insert(user, ledger);
        Ok(())
    }

    /// A user's voting power: their lifetime deposited volume, floored at
    /// zero.
    pub fn get_voting_power(&self, user: u64) -> (r: u128)
        ensures
            r == (if self.spec_rewards_of(user).lifetime_deposited >= 0 {
                self.spec_rewards_of(user).lifetime_deposited as int
            } else {
                0
            }),
    {
        let ledger = self.get_user_rewards(user);
        if ledger.lifetime_deposited >= 0 {
            ledger.lifetime_deposited as u128
        } else {
            0
        }
    }

    /// Casts a vote weighted by voting power: a user without voting power
    /// is refused with `InsufficientBalance`. Recording the tally is the
    /// governance subsystem's concern; the state here does not change.
    pub fn cast_vote(&self, user: u64, proposal_id: u64, support: bool) -> (r: Result<
        (),
        SavingsError,
    >)
        ensures
            self.get_voting_power_spec(user) == 0 ==> r == Err::<(), SavingsError>(
                SavingsError::InsufficientBalance,
            ),
            self.get_voting_power_spec(user) > 0 ==> r == Ok::<(), SavingsError>(()),
    {
        let _ = proposal_id;
        let _ = support;
        let weight = self.get_voting_power(user);
        if weight == 0 {
            return Err(SavingsError::InsufficientBalance);
        }
        Ok(())
    }

    /// A user's voting power as the contracts state it.
    pub open spec fn get_voting_power_spec(self, user: u64) -> int {
        if self.spec_rewards_of(user).lifetime_deposited >= 0 {
            self.spec_rewards_of(user).lifetime_deposited as int
        } else {
            0
        }
    }

    /// Checks what the library can check of a detached mint attestation:
    /// the contract is initialized and the payload's validity window has
    /// not passed at time `now`. The ed25519 verification of the signature
    /// itself is the host's crypto port and fails the whole transaction on
    /// its own; it runs only after this returns `Ok`.
    pub fn verify_signature(&self, payload: &MintPayload, now: u64) -> (r: Result<
        (),
        ContractError,
    >)
        ensures
            !self.initialized ==> r == Err::<(), ContractError>(ContractError::NotInitialized),
            self.initialized && now > payload.timestamp + payload.expiry_duration ==> r == Err::<
                (),
                ContractError,
            >(ContractError::SignatureExpired),
            self.initialized && now <= payload.timestamp + payload.expiry_duration ==> r == Ok::<
                (),
                ContractError,
            >(()),
    {
        if !self.initialized {
            return Err(ContractError::NotInitialized);
        }
        let expired = match payload.timestamp.checked_add(payload.expiry_duration) {
            Some(expiry_time) => now > expiry_time,
            None => false,
        };
        if expired {
            return Err(ContractError::SignatureExpired);
        }
        Ok(())
    }

    /// The amount an attested mint payload releases, after the same checks
    /// as `verify_signature`; the event publication is the host's concern.
    pub fn mint(&self, payload: &MintPayload, now: u64) -> (r: Result<i128, ContractError>)
        ensures
            !self.initialized ==> r == Err::<i128, ContractError>(ContractError::NotInitialized),
            self.initialized && now > payload.timestamp + payload.expiry_duration ==> r == Err::<
                i128,
                ContractError,
            >(ContractError::SignatureExpired),
            self.initialized && now <= payload.timestamp + payload.expiry_duration ==> r == Ok::<
                i128,
                ContractError,
            >(payload.amount),
    {
        match self.verify_signature(payload, now) {
            Ok(()) => Ok(payload.amount),
            Err(e) => Err(e),
        }
    }

    /// Debits an amount from an account's total balance, saturating at the
    /// integer bounds; no change without an account record.
    fn debit_total_balance(&mut self, user: u64, amount: i128)
        ensures
            final(self).users@ == (if old(self).users@.contains_key(user) {
                old(self).users@.insert(
                    user,
                    User {
                        total_balance: crate::rewards::sat_add_i128(
                            old(self).users@[user].total_balance as int,
                            -(amount as int),
                        ) as i128,
                        ..old(self).users@[user]
                    },
                )
            } else {
                old(self).users@
            }),
            *final(self) == (NesteraContract { users: final(self).users, ..*old(self) }),
    {
        let account_opt = match self.users.get(&user) {
            Some(u) => Some(*u),
            None => None,
        };
        match account_opt {
            Some(account) => {
                let new_total = match account.total_balance.checked_sub(amount) {
                    Some(v) => v,
                    None => if amount >= 0 {
                        i128::MIN
                    } else {
                        i128::MAX
                    },
                };
                self.users.insert(user, User { total_balance: new_total, ..account });
            },
            None => {},
        }
    }
}

} // verus!

//! The rewards/anti-farming points engine.
//!
//! Qualifying deposits convert into points at a configured rate, with a
//! streak bonus for consecutive saving and a long-lock bonus for long
//! time-locked deposits. Anti-farming limits apply: a minimum qualifying
//! deposit, a cooldown between scored actions (a silent skip, never an
//! error, so it cannot block the underlying deposit), a daily points cap
//! that truncates awards, and a cap on the streak multiplier.

use vstd::prelude::*;

use crate::errors::SavingsError;

verus! {

/// Length of the streak continuation window: seven days, in seconds.
pub const STREAK_WINDOW_SECONDS: u64 = 604_800;

/// The streak length from which the streak bonus applies.
pub const STREAK_BONUS_THRESHOLD: u32 = 3;

/// Seconds per day, for the daily points cap.
pub const SECONDS_PER_DAY: u64 = 86_400;

/// A time-locked deposit of at least this duration (30 days, in seconds)
/// earns the long-lock bonus.
pub const LONG_LOCK_THRESHOLD_SECONDS: u64 = 2_592_000;

/// Global tunables of the rewards engine.
#[derive(Clone, Copy, Debug, PartialEq, Eq, Structural)]
pub struct RewardsConfig {
    /// Points granted per token deposited.
    pub points_per_token: u32,
    /// Bonus rate, in basis points, for a running streak.
    pub streak_bonus_bps: u32,
    /// Bonus rate, in basis points, for long time-locked deposits.
    pub long_lock_bonus_bps: u32,
    /// Flat points granted once when a goal plan completes.
    pub goal_completion_bonus: u32,
    /// Whether the engine grants anything at all.
    pub enabled: bool,
    /// Deposits below this amount earn nothing.
    pub min_deposit_for_rewards: i128,
    /// Minimum seconds between scored actions; earlier actions are skipped
    /// silently.
    pub action_cooldown_seconds: u64,
    /// Cap on the points earned within one day; awards are truncated to the
    /// remaining allowance.
    pub max_daily_points: u128,
    /// Cap, in basis points, on the effective streak bonus rate.
    pub max_streak_multiplier: u32,
}

/// Per-user rewards ledger.
#[derive(Clone, Copy, Debug, PartialEq, Eq, Structural)]
pub struct UserRewards {
    /// Spendable accumulated points.
    pub total_points: u128,
    /// Total volume ever deposited; the basis of voting power.
    pub lifetime_deposited: i128,
    /// Consecutive qualifying actions within the streak window.
    pub current_streak: u32,
    /// Time of the last scored action, 0 before the first.
    pub last_action_timestamp: u64,
    /// Points earned on the day `last_reward_day`.
    pub daily_points_earned: u128,
    /// The day (timestamp / seconds-per-day) the daily tally belongs to.
    pub last_reward_day: u64,
}

impl UserRewards {
    /// A fresh ledger: no points, no history.
    pub open spec fn spec_new() -> UserRewards {
        UserRewards {
            total_points: 0,
            lifetime_deposited: 0,
            current_streak: 0,
            last_action_timestamp: 0,
            daily_points_earned: 0,
            last_reward_day: 0,
        }
    }

    /// A fresh ledger: no points, no history.
    pub fn new() -> (r: UserRewards)
        ensures
            r == UserRewards::spec_new(),
    {
        UserRewards {
            total_points: 0,
            lifetime_deposited: 0,
            current_streak: 0,
            last_action_timestamp: 0,
            daily_points_earned: 0,
            last_reward_day: 0,
        }
    }
}

/// Whether the bonus rates are within 0-100% and the minimum deposit is
/// non-negative.
pub open spec fn spec_config_valid(config: RewardsConfig) -> bool {
    &&& config.streak_bonus_bps <= 10_000
    &&& config.long_lock_bonus_bps <= 10_000
    &&& config.max_streak_multiplier <= 10_000
    &&& config.min_deposit_for_rewards >= 0
}

/// Validates that bonus rates are within 0-100% (0-10,000 basis points) and
/// that the anti-farming parameters are in range.
pub fn validate_config(config: &RewardsConfig) -> (r: Result<(), SavingsError>)
    ensures
        r is Ok <==> spec_config_valid(*config),
        (config.streak_bonus_bps > 10_000 || config.long_lock_bonus_bps > 10_000
            || config.max_streak_multiplier > 10_000) ==> r == Err::<(), SavingsError>(
            SavingsError::InvalidFeeBps,
        ),
        config.streak_bonus_bps <= 10_000 && config.long_lock_bonus_bps <= 10_000
            && config.max_streak_multiplier <= 10_000 && config.min_deposit_for_rewards < 0 ==> r
            == Err::<(), SavingsError>(SavingsError::InvalidAmount),
{
    if config.streak_bonus_bps > 10_000 || config.long_lock_bonus_bps > 10_000 {
        return Err(SavingsError::InvalidFeeBps);
    }
    if config.max_streak_multiplier > 10_000 {
        return Err(SavingsError::InvalidFeeBps);
    }
    if config.min_deposit_for_rewards < 0 {
        return Err(SavingsError::InvalidAmount);
    }
    Ok(())
}

/// Addition on points, saturating at the `u128` maximum.
pub open spec fn sat_add_u128(a: int, b: int) -> int {
    if a + b > u128::MAX {
        u128::MAX as int
    } else {
        a + b
    }
}

/// Addition on signed token volumes, saturating at the `i128` bounds.
pub open spec fn sat_add_i128(a: int, b: int) -> int {
    if a + b > i128::MAX {
        i128::MAX as int
    } else if a + b < i128::MIN {
        i128::MIN as int
    } else {
        a + b
    }
}

/// Multiplication on points, saturating at the `u128` maximum.
pub open spec fn sat_mul_u128(a: int, b: int) -> int {
    if a * b > u128::MAX {
        u128::MAX as int
    } else {
        a * b
    }
}

/// The smaller of two integers.
pub open spec fn min_int(a: int, b: int) -> int {
    if a <= b {
        a
    } else {
        b
    }
}

/// Whether a deposit of `amount` at time `now` is scored at all: the engine
/// is enabled, the amount reaches the minimum, and the cooldown since the
/// last scored action (if any) has passed.
pub open spec fn spec_qualifies(
    config: RewardsConfig,
    last_action: int,
    amount: int,
    now: int,
) -> bool {
    &&& config.enabled
    &&& amount >= config.min_deposit_for_rewards
    &&& (last_action == 0 || now - last_action >= config.action_cooldown_seconds)
}

/// The streak after a scored action at time `now`: 1 on the first action or
/// after the window lapsed, one more than before while the window holds.
pub open spec fn spec_next_streak(streak: int, last_action: int, now: int) -> int {
    if last_action == 0 {
        1
    } else if now - last_action <= STREAK_WINDOW_SECONDS {
        if streak + 1 > u32::MAX {
            u32::MAX as int
        } else {
            streak + 1
        }
    } else {
        1
    }
}

/// Base points of a deposit: `amount * points_per_token`, saturating; 0 for
/// a non-positive amount.
pub open spec fn spec_base_points(amount: int, points_per_token: int) -> int {
    if amount <= 0 {
        0
    } else {
        sat_mul_u128(amount, points_per_token)
    }
}

/// The streak bonus on `base` points at streak length `streak`: from the
/// bonus threshold on, `base` times the configured bonus rate, the rate
/// itself capped by the maximum streak multiplier; nothing below the
/// threshold. The multiplier does not grow further with the streak, so a
/// long streak alone cannot accrue unbounded bonus.
pub open spec fn spec_streak_bonus(base: int, streak: int, config: RewardsConfig) -> int {
    if streak >= STREAK_BONUS_THRESHOLD {
        sat_mul_u128(base, min_int(config.streak_bonus_bps as int, config.max_streak_multiplier as int))
            / 10_000
    } else {
        0
    }
}

/// The pre-cap award of a scored deposit: base points plus the streak bonus
/// plus, where it applies, the long-lock bonus at `extra_bonus_bps`.
pub open spec fn spec_award_amount(
    config: RewardsConfig,
    amount: int,
    streak: int,
    extra_bonus_bps: int,
) -> int {
    let base = spec_base_points(amount, config.points_per_token as int);
    let bonus = spec_streak_bonus(base, streak, config);
    let extra = sat_mul_u128(base, extra_bonus_bps) / 10_000;
    sat_add_u128(sat_add_u128(base, bonus), extra)
}

/// The daily tally carried into an action on day `day`: the running tally
/// while the day matches, else a fresh 0.
pub open spec fn spec_daily_carry(rewards: UserRewards, day: int) -> int {
    if rewards.last_reward_day == day {
        rewards.daily_points_earned as int
    } else {
        0
    }
}

/// What a pre-cap award is truncated to: the remaining daily allowance,
/// never negative, never more than the award itself.
pub open spec fn spec_granted(config: RewardsConfig, daily_carry: int, award: int) -> int {
    let remaining = if config.max_daily_points >= daily_carry {
        config.max_daily_points - daily_carry
    } else {
        0
    };
    min_int(award, remaining)
}

/// The rewards ledger after a deposit of `amount` at time `now`, with an
/// extra bonus rate of `extra_bonus_bps` (0 for ordinary deposits, the
/// long-lock rate for qualifying locks). A non-qualifying deposit leaves
/// the ledger untouched; a qualifying one updates the streak, the
/// timestamps, the lifetime volume and the capped points tallies.
pub open spec fn spec_award(
    rewards: UserRewards,
    config: RewardsConfig,
    amount: int,
    now: int,
    extra_bonus_bps: int,
) -> UserRewards {
    if !spec_qualifies(config, rewards.last_action_timestamp as int, amount, now) {
        rewards
    } else {
        let day = now / (SECONDS_PER_DAY as int);
        let carry = spec_daily_carry(rewards, day);
        let streak = spec_next_streak(
            rewards.current_streak as int,
            rewards.last_action_timestamp as int,
            now,
        );
        let award = spec_award_amount(config, amount, streak, extra_bonus_bps);
        let granted = spec_granted(config, carry, award);
        UserRewards {
            total_points: sat_add_u128(rewards.total_points as int, granted) as u128,
            lifetime_deposited: sat_add_i128(rewards.lifetime_deposited as int, amount) as i128,
            current_streak: streak as u32,
            last_action_timestamp: now as u64,
            daily_points_earned: (carry + granted) as u128,
            last_reward_day: day as u64,
        }
    }
}

/// The points granted by [`spec_award`], 0 where the deposit is skipped.
pub open spec fn spec_award_granted(
    rewards: UserRewards,
    config: RewardsConfig,
    amount: int,
    now: int,
    extra_bonus_bps: int,
) -> int {
    if !spec_qualifies(config, rewards.last_action_timestamp as int, amount, now) {
        0
    } else {
        let day = now / (SECONDS_PER_DAY as int);
        let carry = spec_daily_carry(rewards, day);
        let streak = spec_next_streak(
            rewards.current_streak as int,
            rewards.last_action_timestamp as int,
            now,
        );
        spec_granted(config, carry, spec_award_amount(config, amount, streak, extra_bonus_bps))
    }
}

/// Saturating addition on points.
fn sat_add_points(a: u128, b: u128) -> (r: u128)
    ensures
        r == sat_add_u128(a as int, b as int),
{
    match a.checked_add(b) {
        Some(v) => v,
        None => u128::MAX,
    }
}

/// Saturating multiplication on points.
fn sat_mul_points(a: u128, b: u128) -> (r: u128)
    ensures
        r == sat_mul_u128(a as int, b as int),
{
    match a.checked_mul(b) {
        Some(v) => v,
        None => u128::MAX,
    }
}

/// Scores a deposit and applies it to a user's rewards ledger, granting at
/// the extra bonus rate on top of base and streak bonus. Returns the points
/// granted after the daily cap.
fn award_with_extra(
    rewards: &mut UserRewards,
    config: &RewardsConfig,
    amount: i128,
    now: u64,
    extra_bonus_bps: u32,
) -> (granted: u128)
    ensures
        *final(rewards) == spec_award(
            *old(rewards),
            *config,
            amount as int,
            now as int,
            extra_bonus_bps as int,
        ),
        granted == spec_award_granted(
            *old(rewards),
            *config,
            amount as int,
            now as int,
            extra_bonus_bps as int,
        ),
{
    if !config.enabled {
        return 0;
    }
    if amount < config.min_deposit_for_rewards {
        return 0;
    }
    let last = rewards.last_action_timestamp;
    if last != 0 && (now < last || now - last < config.action_cooldown_seconds) {
        return 0;
    }
    let day = now / SECONDS_PER_DAY;
    let carry = if rewards.last_reward_day == day {
        rewards.daily_points_earned
    } else {
        0
    };
    let streak: u32 = if last == 0 {
        1
    } else if now - last <= STREAK_WINDOW_SECONDS {
        match rewards.current_streak.checked_add(1) {
            Some(s) => s,
            None => u32::MAX,
        }
    } else {
        1
    };
    let base: u128 = if amount <= 0 {
        0
    } else {
        sat_mul_points(amount as u128, config.points_per_token as u128)
    };
    let bonus: u128 = if streak >= STREAK_BONUS_THRESHOLD {
        let effective_bps: u32 = if config.streak_bonus_bps <= config.max_streak_multiplier {
            config.streak_bonus_bps
        } else {
            config.max_streak_multiplier
        };
        sat_mul_points(base, effective_bps as u128) / 10_000
    } else {
        0
    };
    let extra: u128 = sat_mul_points(base, extra_bonus_bps as u128) / 10_000;
    let award = sat_add_points(sat_add_points(base, bonus), extra);
    let remaining: u128 = if config.max_daily_points >= carry {
        config.max_daily_points - carry
    } else {
        0
    };
    let granted = if award <= remaining {
        award
    } else {
        remaining
    };
    rewards.total_points = sat_add_points(rewards.total_points, granted);
    rewards.lifetime_deposited = match rewards.lifetime_deposited.checked_add(amount) {
        Some(v) => v,
        None => if amount >= 0 {
            i128::MAX
        } else {
            i128::MIN
        },
    };
    rewards.current_streak = streak;
    rewards.last_action_timestamp = now;
    rewards.daily_points_earned = carry + granted;
    rewards.last_reward_day = day;
    granted
}

/// Scores an ordinary deposit (no long-lock bonus) against a user's rewards
/// ledger. A non-qualifying deposit is skipped silently: the ledger is left
/// unchanged and 0 is returned, and the underlying balance transfer is not
/// blocked.
pub fn award_deposit_points(
    rewards: &mut UserRewards,
    config: &RewardsConfig,
    amount: i128,
    now: u64,
) -> (granted: u128)
    ensures
        *final(rewards) == spec_award(*old(rewards), *config, amount as int, now as int, 0),
        granted == spec_award_granted(*old(rewards), *config, amount as int, now as int, 0),
{
    award_with_extra(rewards, config, amount, now, 0)
}

/// Scores the deposit that creates a time-locked plan: as an ordinary
/// deposit, plus the long-lock bonus rate when the lock runs at least
/// [`LONG_LOCK_THRESHOLD_SECONDS`].
pub fn award_lock_deposit_points(
    rewards: &mut UserRewards,
    config: &RewardsConfig,
    amount: i128,
    duration_seconds: u64,
    now: u64,
) -> (granted: u128)
    ensures
        *final(rewards) == spec_award(
            *old(rewards),
            *config,
            amount as int,
            now as int,
            if duration_seconds >= LONG_LOCK_THRESHOLD_SECONDS {
                config.long_lock_bonus_bps as int
            } else {
                0
            },
        ),
        granted == spec_award_granted(
            *old(rewards),
            *config,
            amount as int,
            now as int,
            if duration_seconds >= LONG_LOCK_THRESHOLD_SECONDS {
                config.long_lock_bonus_bps as int
            } else {
                0
            },
        ),
{
    if duration_seconds >= LONG_LOCK_THRESHOLD_SECONDS {
        award_with_extra(rewards, config, amount, now, config.long_lock_bonus_bps)
    } else {
        award_with_extra(rewards, config, amount, now, 0)
    }
}

/// The ledger after a one-time goal-completion bonus at time `now`: the
/// flat bonus, truncated by the daily cap, is added to the points tallies;
/// streak, lifetime volume and action timestamp stay as they are. A
/// disabled engine grants nothing.
pub open spec fn spec_goal_bonus(rewards: UserRewards, config: RewardsConfig, now: int) -> UserRewards {
    if !config.enabled {
        rewards
    } else {
        let day = now / (SECONDS_PER_DAY as int);
        let carry = spec_daily_carry(rewards, day);
        let granted = spec_granted(config, carry, config.goal_completion_bonus as int);
        UserRewards {
            total_points: sat_add_u128(rewards.total_points as int, granted) as u128,
            daily_points_earned: (carry + granted) as u128,
            last_reward_day: day as u64,
            ..rewards
        }
    }
}

/// The points granted by [`spec_goal_bonus`].
pub open spec fn spec_goal_bonus_granted(
    rewards: UserRewards,
    config: RewardsConfig,
    now: int,
) -> int {
    if !config.enabled {
        0
    } else {
        let day = now / (SECONDS_PER_DAY as int);
        spec_granted(config, spec_daily_carry(rewards, day), config.goal_completion_bonus as int)
    }
}

/// Grants the flat one-time bonus for completing a goal plan, truncated by
/// the daily cap. Attributed to the triggering deposit but independent of
/// the cooldown, so a completion inside the cooldown window still earns it.
pub fn award_goal_completion_bonus(
    rewards: &mut UserRewards,
    config: &RewardsConfig,
    now: u64,
) -> (granted: u128)
    ensures
        *final(rewards) == spec_goal_bonus(*old(rewards), *config, now as int),
        granted == spec_goal_bonus_granted(*old(rewards), *config, now as int),
{
    if !config.enabled {
        return 0;
    }
    let day = now / SECONDS_PER_DAY;
    let carry = if rewards.last_reward_day == day {
        rewards.daily_points_earned
    } else {
        0
    };
    let award = config.goal_completion_bonus as u128;
    let remaining: u128 = if config.max_daily_points >= carry {
        config.max_daily_points - carry
    } else {
        0
    };
    let granted = if award <= remaining {
        award
    } else {
        remaining
    };
    rewards.total_points = sat_add_points(rewards.total_points, granted);
    rewards.daily_points_earned = carry + granted;
    rewards.last_reward_day = day;
    granted
}

/// Redeems points from a ledger: fails with `InsufficientBalance`, leaving
/// the ledger unchanged, when `amount` exceeds the points at hand; else
/// decrements the balance by exactly `amount`.
pub fn redeem_points(rewards: &mut UserRewards, amount: u128) -> (r: Result<(), SavingsError>)
    ensures
        amount > old(rewards).total_points ==> r == Err::<(), SavingsError>(
            SavingsError::InsufficientBalance,
        ) && *final(rewards) == *old(rewards),
        amount <= old(rewards).total_points ==> r == Ok::<(), SavingsError>(()) && *final(rewards)
            == (UserRewards {
            total_points: (old(rewards).total_points - amount) as u128,
            ..*old(rewards)
        }),
{
    if amount > rewards.total_points {
        return Err(SavingsError::InsufficientBalance);
    }
    rewards.total_points = rewards.total_points - amount;
    Ok(())
}

/// The ledger after a streak maintenance check at time `now`: a streak whose
/// window has lapsed is reset to 0; otherwise nothing changes. The action
/// timestamp is not touched, so maintenance cannot game the cooldown.
pub open spec fn spec_update_streak(rewards: UserRewards, now: int) -> UserRewards {
    if rewards.last_action_timestamp != 0 && now - rewards.last_action_timestamp
        > STREAK_WINDOW_SECONDS {
        UserRewards { current_streak: 0, ..rewards }
    } else {
        rewards
    }
}

/// Re-evaluates a user's streak against the continuation window and returns
/// the streak that now stands.
pub fn update_streak(rewards: &mut UserRewards, now: u64) -> (streak: u32)
    ensures
        *final(rewards) == spec_update_streak(*old(rewards), now as int),
        streak == final(rewards).current_streak,
{
    let last = rewards.last_action_timestamp;
    if last != 0 && now > last && now - last > STREAK_WINDOW_SECONDS {
        rewards.current_streak = 0;
    }
    rewards.current_streak
}

/// Law: a deposit below the minimum qualifying amount earns zero points
/// and leaves the whole ledger — the daily tally included — unchanged.
pub proof fn lemma_award_below_minimum(
    rewards: UserRewards,
    config: RewardsConfig,
    amount: int,
    now: int,
    extra_bonus_bps: int,
)
    requires
        amount < config.min_deposit_for_rewards,
    ensures
        spec_award(rewards, config, amount, now, extra_bonus_bps) == rewards,
        spec_award_granted(rewards, config, amount, now, extra_bonus_bps) == 0,
{
}

/// Law: a deposit inside the cooldown window earns zero points and leaves
/// the whole ledger unchanged; the skip is silent, so the underlying
/// balance transfer is never blocked by it.
pub proof fn lemma_award_in_cooldown(
    rewards: UserRewards,
    config: RewardsConfig,
    amount: int,
    now: int,
    extra_bonus_bps: int,
)
    requires
        rewards.last_action_timestamp != 0,
        now - rewards.last_action_timestamp < config.action_cooldown_seconds,
    ensures
        spec_award(rewards, config, amount, now, extra_bonus_bps) == rewards,
        spec_award_granted(rewards, config, amount, now, extra_bonus_bps) == 0,
{
}

/// Law: three consecutive qualifying deposits within the streak window,
/// starting from a fresh ledger, raise the streak to exactly 3, and the
/// third award carries the streak bonus — the base points times the
/// configured bonus rate, that rate capped by the streak-multiplier cap —
/// on top of its base points, where the first two awards carried base
/// points alone.
pub proof fn lemma_streak_bonus_on_third(
    config: RewardsConfig,
    a1: int,
    a2: int,
    a3: int,
    t1: int,
    t2: int,
    t3: int,
)
    requires
        config.enabled,
        a1 >= config.min_deposit_for_rewards,
        a2 >= config.min_deposit_for_rewards,
        a3 >= config.min_deposit_for_rewards,
        0 < t1 <= t2 <= t3 <= u64::MAX,
        t2 - t1 >= config.action_cooldown_seconds,
        t3 - t2 >= config.action_cooldown_seconds,
        t2 - t1 <= STREAK_WINDOW_SECONDS,
        t3 - t2 <= STREAK_WINDOW_SECONDS,
    ensures
        ({
            let r1 = spec_award(UserRewards::spec_new(), config, a1, t1, 0);
            let r2 = spec_award(r1, config, a2, t2, 0);
            let r3 = spec_award(r2, config, a3, t3, 0);
            let base3 = spec_base_points(a3, config.points_per_token as int);
            &&& r1.current_streak == 1
            &&& r2.current_streak == 2
            &&& r3.current_streak == 3
            &&& spec_award_amount(config, a1, 1, 0) == spec_base_points(
                a1,
                config.points_per_token as int,
            )
            &&& spec_award_amount(config, a2, 2, 0) == spec_base_points(
                a2,
                config.points_per_token as int,
            )
            &&& spec_award_amount(config, a3, 3, 0) == sat_add_u128(
                base3,
                sat_mul_u128(
                    base3,
                    min_int(config.streak_bonus_bps as int, config.max_streak_multiplier as int),
                ) / 10_000,
            )
            &&& spec_award_granted(r2, config, a3, t3, 0) == spec_granted(
                config,
                spec_daily_carry(r2, t3 / (SECONDS_PER_DAY as int)),
                spec_award_amount(config, a3, 3, 0),
            )
        }),
{
    let r1 = spec_award(UserRewards::spec_new(), config, a1, t1, 0);
    let r2 = spec_award(r1, config, a2, t2, 0);
    assert(r1.current_streak == 1 && r1.last_action_timestamp == t1);
    assert(r2.current_streak == 2 && r2.last_action_timestamp == t2);
    assert(spec_next_streak(r2.current_streak as int, r2.last_action_timestamp as int, t3) == 3);
    assert(spec_award_amount(config, a1, 1, 0) == spec_base_points(
        a1,
        config.points_per_token as int,
    )) by {
        let base = spec_base_points(a1, config.points_per_token as int);
        assert(spec_streak_bonus(base, 1, config) == 0);
        assert(sat_mul_u128(base, 0) == 0) by {
            assert(base * 0 == 0) by (nonlinear_arith);
        }
    }
    assert(spec_award_amount(config, a2, 2, 0) == spec_base_points(
        a2,
        config.points_per_token as int,
    )) by {
        let base = spec_base_points(a2, config.points_per_token as int);
        assert(spec_streak_bonus(base, 2, config) == 0);
        assert(sat_mul_u128(base, 0) == 0) by {
            assert(base * 0 == 0) by (nonlinear_arith);
        }
    }
    assert(spec_award_amount(config, a3, 3, 0) == sat_add_u128(
        spec_base_points(a3, config.points_per_token as int),
        sat_mul_u128(
            spec_base_points(a3, config.points_per_token as int),
            min_int(config.streak_bonus_bps as int, config.max_streak_multiplier as int),
        ) / 10_000,
    )) by {
        let base = spec_base_points(a3, config.points_per_token as int);
        assert(sat_mul_u128(base, 0) == 0) by {
            assert(base * 0 == 0) by (nonlinear_arith);
        }
    }
}

} // verus!

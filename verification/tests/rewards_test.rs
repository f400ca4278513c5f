use nestera::contract::NesteraContract;
use nestera::errors::SavingsError;
use nestera::rewards::RewardsConfig;

fn create_test_env() -> (NesteraContract, u64, u64) {
    let mut c = NesteraContract::new();
    let admin: u64 = 1;
    let user: u64 = 2;
    c.initialize(admin).unwrap();
    c.init_user(user).unwrap();
    (c, admin, user)
}

fn setup_rewards_config(c: &mut NesteraContract, admin: u64) {
    c.init_rewards_config(
        admin, 10,     // points_per_token
        500,    // streak_bonus_bps (5%)
        1000,   // long_lock_bonus_bps (10%)
        100,    // goal_completion_bonus
        true,   // enabled
        100,    // min_deposit_for_rewards
        60,     // action_cooldown_seconds
        10_000, // max_daily_points
        2_000,  // max_streak_multiplier (20%)
    )
    .unwrap();
}

#[test]
fn test_micro_deposit_spam_no_rewards() {
    let (mut c, admin, user) = create_test_env();
    setup_rewards_config(&mut c, admin);

    // Attempt multiple micro-deposits below minimum
    for _ in 0..100 {
        let _ = c.deposit_flexi(user, 50, 1_000); // Below 100 minimum
    }

    // Check user has no rewards
    let rewards = c.get_user_rewards(user);
    assert_eq!(rewards.total_points, 0, "Micro-deposits should not earn rewards");
    assert_eq!(rewards.daily_points_earned, 0, "Daily points should be zero");
}

#[test]
fn test_minimum_deposit_threshold() {
    let (mut c, admin, user) = create_test_env();
    setup_rewards_config(&mut c, admin);

    // Verify rewards config was set up correctly
    let config = c.get_rewards_config().unwrap();
    assert_eq!(config.min_deposit_for_rewards, 100, "Config should be initialized");
    assert_eq!(config.enabled, true, "Rewards should be enabled");

    // Deposit below minimum - should not earn rewards
    c.deposit_flexi(user, 99, 1_000).unwrap();
    let rewards1 = c.get_user_rewards(user);
    assert_eq!(rewards1.total_points, 0, "Below minimum should earn no rewards");

    // Deposit at minimum - should earn rewards
    c.deposit_flexi(user, 100, 1_100).unwrap();
    let rewards2 = c.get_user_rewards(user);
    assert!(
        rewards2.total_points > 0,
        "At minimum should earn rewards: got {}",
        rewards2.total_points
    );
}

#[test]
fn test_combined_abuse_scenario() {
    let (mut c, admin, user) = create_test_env();
    setup_rewards_config(&mut c, admin);

    // Attempt rapid micro-deposits
    for _ in 0..50 {
        let _ = c.deposit_flexi(user, 10, 1_000);
    }

    // Attempt rapid valid deposits (should hit cooldown or no rewards due to micro size)
    for _ in 0..10 {
        let _ = c.deposit_flexi(user, 50, 1_000); // Still below minimum
    }

    let rewards_immediate = c.get_user_rewards(user);

    // Should not get rewards from micro-deposits
    assert_eq!(
        rewards_immediate.total_points, 0,
        "Should not bypass protections with mixed micro-deposit attack"
    );
}

#[test]
fn test_daily_points_tracking() {
    let (mut c, admin, user) = create_test_env();
    setup_rewards_config(&mut c, admin);

    // Make a deposit that earns rewards
    c.deposit_flexi(user, 1000, 1_000).unwrap();

    let rewards = c.get_user_rewards(user);

    // Daily points should be tracked
    assert_eq!(
        rewards.daily_points_earned, rewards.total_points,
        "Daily points should match total on first day"
    );

    // Check that daily tracking is working
    assert!(
        rewards.daily_points_earned > 0,
        "Daily points should be tracked after earning rewards"
    );
}

#[test]
fn test_overflow_protection_basic() {
    let (mut c, admin, user) = create_test_env();
    setup_rewards_config(&mut c, admin);

    // Make a large valid deposit
    c.deposit_flexi(user, 1_000_000, 1_000).unwrap();

    // Should not panic or overflow
    let rewards = c.get_user_rewards(user);
    assert!(rewards.total_points > 0, "Should accumulate points without overflow");
    assert!(rewards.total_points < u128::MAX, "Should not overflow u128");
    assert!(rewards.lifetime_deposited > 0, "Should track lifetime deposits");
}

#[test]
fn test_rewards_full_lifecycle() {
    let mut c = NesteraContract::new();
    let admin: u64 = 1;
    let user: u64 = 2;
    c.initialize(admin).unwrap();
    c.init_user(user).unwrap();

    // 1. Initialize config
    c.init_rewards_config(
        admin, 10,      // points_per_token
        2000,    // streak_bonus_bps (20%)
        1000,    // long_lock_bonus_bps (10%)
        1000,    // goal_completion_bonus (1000 points)
        true,    // enabled
        10,      // min_deposit_for_rewards (10 tokens)
        60,      // action_cooldown_seconds (1 minute)
        100_000, // max_daily_points
        5000,    // max_streak_multiplier (50%)
    )
    .unwrap();

    // 2. Deposit multiple times to build streak
    // Streak starts at 1
    let mut now: u64 = 1_000;
    c.deposit_flexi(user, 100, now).unwrap();
    let rewards = c.get_user_rewards(user);
    assert_eq!(rewards.current_streak, 1);
    assert_eq!(rewards.total_points, 1000); // 100 * 10

    // Advance time beyond cooldown but within streak window (7 days)
    now += 70;

    // Streak 2
    c.deposit_flexi(user, 100, now).unwrap();
    let rewards = c.get_user_rewards(user);
    assert_eq!(rewards.current_streak, 2);
    assert_eq!(rewards.total_points, 2000); // 1000 + 1000

    // Advance time (1 day)
    now += 86_400;

    // 3. Validate streak bonus (threshold is 3)
    c.deposit_flexi(user, 100, now).unwrap();
    let rewards = c.get_user_rewards(user);
    assert_eq!(rewards.current_streak, 3);
    // Base: 1000, Bonus: 20% of 1000 = 200. Total added: 1200.
    // Cumulative: 2000 + 1200 = 3200
    assert_eq!(rewards.total_points, 3200);

    // 4. Complete goal
    let goal_name: u64 = 42;
    let target_amount = 500i128;
    let initial_deposit = 100i128;

    now += 70;
    let goal_id = c
        .create_goal_save(user, goal_name, target_amount, initial_deposit, now)
        .unwrap();

    // Points for creation deposit (100 * 10 = 1000 + 20% streak bonus = 1200)
    // Cumulative: 3200 + 1200 = 4400
    let rewards = c.get_user_rewards(user);
    assert_eq!(rewards.total_points, 4400);

    // Deposit to complete goal
    now += 70;
    c.deposit_to_goal_save(user, goal_id, 400, now).unwrap();

    // Points for 400 deposit (400 * 10 = 4000 + 20% streak bonus = 800) = 4800
    // Plus Goal Completion Bonus = 1000
    // Cumulative: 4400 + 4800 + 1000 = 10200
    let rewards = c.get_user_rewards(user);
    assert_eq!(rewards.total_points, 10200);

    // 5. Redeem points
    c.redeem_points(user, 2000).unwrap();
    let rewards = c.get_user_rewards(user);
    assert_eq!(rewards.total_points, 8200);

    // 7. Attempt abuse scenarios

    // - Zero deposit (should not award points)
    now += 70;
    c.deposit_flexi(user, 10, now).unwrap(); // 100 base + 20 bonus = 120
    let rewards_before = c.get_user_rewards(user).total_points;
    let _ = c.deposit_flexi(user, 0, now);
    let rewards_after = c.get_user_rewards(user).total_points;
    assert_eq!(rewards_before, rewards_after, "Zero deposit should not award points");

    // - Rapid-fire deposits (should skip points due to cooldown)
    now += 70;
    c.deposit_flexi(user, 100, now).unwrap(); // 1000 + 200 = 1200
    let rewards_before = c.get_user_rewards(user).total_points;
    c.deposit_flexi(user, 100, now).unwrap(); // Should be COOLING DOWN
    let rewards_after = c.get_user_rewards(user).total_points;
    assert_eq!(
        rewards_before, rewards_after,
        "Points should not be awarded during cooldown"
    );

    // 8. Pause logic
    c.pause(admin).unwrap();
    let result = c.deposit_flexi(user, 100, now);
    assert!(result.is_err(), "Deposit should fail when paused");
}

#[test]
fn test_rewards_invariants_and_abuse() {
    let mut c = NesteraContract::new();
    let admin: u64 = 1;
    let user: u64 = 2;
    c.initialize(admin).unwrap();
    c.init_user(user).unwrap();

    c.init_rewards_config(admin, 10, 0, 0, 0, true, 0, 0, 1000, 10000)
        .unwrap();

    // Over-redemption
    c.deposit_flexi(user, 50, 1_000).unwrap(); // 500 points
    let result = c.redeem_points(user, 1000);
    assert!(result.is_err(), "Redeem more than balance should fail");

    // Non-admin config update
    let prank_user: u64 = 66;
    let bad_config = c.get_rewards_config().unwrap();
    let result = c.update_rewards_config(prank_user, bad_config);
    assert!(result.is_err(), "Non-admin should not be able to update config");
}

#[test]
fn test_redeem_leaves_balance_on_failure() {
    let (mut c, admin, user) = create_test_env();
    setup_rewards_config(&mut c, admin);
    c.deposit_flexi(user, 1000, 1_000).unwrap();
    let before = c.get_user_rewards(user);
    assert_eq!(
        c.redeem_points(user, before.total_points + 1),
        Err(SavingsError::InsufficientBalance)
    );
    assert_eq!(c.get_user_rewards(user), before);
    // Redeeming exactly the balance empties it.
    c.redeem_points(user, before.total_points).unwrap();
    assert_eq!(c.get_user_rewards(user).total_points, 0);
}

#[test]
fn test_daily_cap_truncates_awards() {
    let (mut c, admin, user) = create_test_env();
    setup_rewards_config(&mut c, admin);
    // Base points for 5000 tokens would be 50_000; the daily cap is 10_000.
    c.deposit_flexi(user, 5_000, 1_000).unwrap();
    let rewards = c.get_user_rewards(user);
    assert_eq!(rewards.total_points, 10_000);
    assert_eq!(rewards.daily_points_earned, 10_000);
    // Later the same day nothing more accrues...
    c.deposit_flexi(user, 5_000, 2_000).unwrap();
    assert_eq!(c.get_user_rewards(user).total_points, 10_000);
    // ...but the next day the allowance is fresh.
    c.deposit_flexi(user, 5_000, 1_000 + 86_400).unwrap();
    assert_eq!(c.get_user_rewards(user).total_points, 20_000);
}

#[test]
fn test_streak_resets_after_window() {
    let (mut c, admin, user) = create_test_env();
    setup_rewards_config(&mut c, admin);
    c.deposit_flexi(user, 100, 1_000).unwrap();
    assert_eq!(c.get_user_rewards(user).current_streak, 1);
    // Within the 7-day window the streak grows.
    c.deposit_flexi(user, 100, 1_000 + 86_400).unwrap();
    assert_eq!(c.get_user_rewards(user).current_streak, 2);
    // More than 7 days of silence resets it to 1 on the next deposit.
    c.deposit_flexi(user, 100, 1_000 + 86_400 + 604_801).unwrap();
    assert_eq!(c.get_user_rewards(user).current_streak, 1);
}

#[test]
fn test_update_streak_maintenance() {
    let (mut c, admin, user) = create_test_env();
    setup_rewards_config(&mut c, admin);
    assert_eq!(c.update_streak(user, 1_000), Ok(0));
    c.deposit_flexi(user, 100, 1_000).unwrap();
    // Within the window the streak stands.
    assert_eq!(c.update_streak(user, 2_000), Ok(1));
    // After the window lapses it resets to 0.
    assert_eq!(c.update_streak(user, 1_000 + 604_801), Ok(0));
}

#[test]
fn test_long_lock_bonus_applies() {
    let (mut c, admin, user) = create_test_env();
    setup_rewards_config(&mut c, admin);
    // A 30-day lock earns the 10% long-lock bonus: 1000 * 10 = 10_000 base,
    // truncated by the 10_000 daily cap either way; use a smaller amount.
    c.create_lock_save(user, 100, 2_592_000, 1_000).unwrap();
    // Base 1000 + 10% long-lock bonus 100 = 1100.
    assert_eq!(c.get_user_rewards(user).total_points, 1_100);
    // A short lock earns base points alone.
    let (mut c2, admin2, user2) = create_test_env();
    setup_rewards_config(&mut c2, admin2);
    c2.create_lock_save(user2, 100, 3_600, 1_000).unwrap();
    assert_eq!(c2.get_user_rewards(user2).total_points, 1_000);
}

#[test]
fn test_rewards_config_validation() {
    let (mut c, admin, _user) = create_test_env();
    assert_eq!(
        c.init_rewards_config(admin, 10, 10_001, 0, 0, true, 0, 0, 1000, 100),
        Err(SavingsError::InvalidFeeBps)
    );
    assert_eq!(
        c.init_rewards_config(admin, 10, 0, 0, 0, true, -1, 0, 1000, 100),
        Err(SavingsError::InvalidAmount)
    );
    c.init_rewards_config(admin, 10, 0, 0, 0, true, 0, 0, 1000, 100)
        .unwrap();
    assert_eq!(
        c.init_rewards_config(admin, 10, 0, 0, 0, true, 0, 0, 1000, 100),
        Err(SavingsError::ConfigAlreadyInitialized)
    );
}

#[test]
fn test_points_saturate_at_representable_maximum() {
    let config = RewardsConfig {
        points_per_token: u32::MAX,
        streak_bonus_bps: 0,
        long_lock_bonus_bps: 0,
        goal_completion_bonus: 0,
        enabled: true,
        min_deposit_for_rewards: 0,
        action_cooldown_seconds: 0,
        max_daily_points: u128::MAX,
        max_streak_multiplier: 0,
    };
    let mut ledger = nestera::rewards::UserRewards::new();
    let granted = nestera::rewards::award_deposit_points(&mut ledger, &config, i128::MAX, 1_000);
    assert_eq!(granted, u128::MAX);
    assert_eq!(ledger.total_points, u128::MAX);
    assert_eq!(ledger.lifetime_deposited, i128::MAX);
    // A second enormous deposit saturates rather than wrapping.
    let _ = nestera::rewards::award_deposit_points(&mut ledger, &config, i128::MAX, 2_000);
    assert_eq!(ledger.total_points, u128::MAX);
    assert_eq!(ledger.lifetime_deposited, i128::MAX);
}

#[test]
fn test_disabled_rewards_grant_nothing() {
    let (mut c, admin, user) = create_test_env();
    c.init_rewards_config(admin, 10, 0, 0, 0, false, 0, 0, 1_000_000, 100)
        .unwrap();
    c.deposit_flexi(user, 1_000, 1_000).unwrap();
    assert_eq!(c.get_user_rewards(user).total_points, 0);
    assert_eq!(c.get_flexi_balance(user), 1_000);
}

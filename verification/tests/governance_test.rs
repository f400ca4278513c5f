use nestera::contract::NesteraContract;
use nestera::plans::PlanType;
use nestera::rewards::RewardsConfig;

fn setup_contract() -> (NesteraContract, u64) {
    let mut c = NesteraContract::new();
    let admin: u64 = 1;
    c.initialize(admin).unwrap();

    let config = RewardsConfig {
        points_per_token: 10,
        streak_bonus_bps: 0,
        long_lock_bonus_bps: 0,
        goal_completion_bonus: 0,
        enabled: true,
        min_deposit_for_rewards: 0,
        action_cooldown_seconds: 0,
        max_daily_points: 1_000_000,
        max_streak_multiplier: 10_000,
    };
    c.initialize_rewards_config(config).unwrap();

    (c, admin)
}

#[test]
fn test_voting_power_zero_for_new_user() {
    let (c, _) = setup_contract();
    let user: u64 = 7;

    let power = c.get_voting_power(user);
    assert_eq!(power, 0);
}

#[test]
fn test_voting_power_increases_with_deposits() {
    let (mut c, _) = setup_contract();
    let user: u64 = 7;

    c.initialize_user(user).unwrap();
    let _ = c.create_savings_plan(user, PlanType::Flexi, 1000, 0);

    let power = c.get_voting_power(user);
    assert_eq!(power, 1000);
}

#[test]
fn test_voting_power_accumulates_across_deposits() {
    let (mut c, _) = setup_contract();
    let user: u64 = 7;

    c.initialize_user(user).unwrap();
    let _ = c.create_savings_plan(user, PlanType::Flexi, 1000, 0);
    let _ = c.create_savings_plan(user, PlanType::Flexi, 500, 0);

    let power = c.get_voting_power(user);
    assert_eq!(power, 1500);
}

#[test]
fn test_cast_vote_requires_voting_power() {
    let (mut c, _) = setup_contract();
    let user: u64 = 7;

    c.initialize_user(user).unwrap();

    let result = c.cast_vote(user, 1, true);
    assert!(result.is_err());
}

#[test]
fn test_cast_vote_succeeds_with_voting_power() {
    let (mut c, _) = setup_contract();
    let user: u64 = 7;

    c.initialize_user(user).unwrap();
    let _ = c.create_savings_plan(user, PlanType::Flexi, 1000, 0);

    let result = c.cast_vote(user, 1, true);
    assert!(result.is_ok());
}

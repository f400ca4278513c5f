use nestera::contract::NesteraContract;
use nestera::errors::SavingsError;
use nestera::strategy::StrategyPositionKey;

fn setup() -> (NesteraContract, u64, u64) {
    let mut c = NesteraContract::new();
    let admin: u64 = 1;
    let strategy: u64 = 100;
    c.initialize(admin).unwrap();
    c.register_strategy(admin, strategy, 1).unwrap();
    (c, admin, strategy)
}

/// Completes a routing transaction in one go, standing in for the
/// external strategy's deposit call returning `shares`.
fn route_and_confirm(
    c: &mut NesteraContract,
    strategy: u64,
    key: StrategyPositionKey,
    amount: i128,
    shares: i128,
) -> Result<i128, SavingsError> {
    c.route_to_strategy(strategy, key, amount)?;
    c.confirm_strategy_deposit(key, shares)
}

#[test]
fn test_strategy_performance_tracking() {
    let (mut c, admin, strategy) = setup();
    c.initialize_config(admin, 99, 0).unwrap();

    // Simulate deposits
    route_and_confirm(&mut c, strategy, StrategyPositionKey::Lock(1), 1000, 1000).unwrap();
    route_and_confirm(&mut c, strategy, StrategyPositionKey::Lock(2), 2000, 2000).unwrap();

    // Simulate withdrawals: the strategy reports 500 available.
    let withdrawn = c
        .withdraw_from_strategy(StrategyPositionKey::Lock(1), 500)
        .unwrap();
    assert_eq!(withdrawn, 500);
    c.confirm_strategy_withdraw(500).unwrap();

    // Simulate harvests: principal is 2500, the strategy reports 2600.
    let profit = c.harvest_begin(strategy, 2600).unwrap();
    assert_eq!(profit, 100);
    let harvested = c.harvest_strategy(strategy, 2600, 100).unwrap();
    assert_eq!(harvested, 100);

    // Verify performance metrics
    let performance = c.get_strategy_performance(strategy);
    assert_eq!(performance.total_deposited, 3000);
    assert_eq!(performance.total_withdrawn, 500);
    assert!(performance.total_harvested > 0);
}

#[test]
fn test_withdraw_strategy_full_and_partial() {
    let (mut c, _admin, strategy) = setup();
    let position_key = StrategyPositionKey::Lock(1);
    route_and_confirm(&mut c, strategy, position_key, 1000, 1000).unwrap();
    // The strategy reports only 800: a partial withdrawal of min(1000, 800).
    let result = c.withdraw_from_strategy(position_key, 800);
    assert!(result.is_ok());
    assert_eq!(result.unwrap(), 800);
    c.confirm_strategy_withdraw(800).unwrap();
    let position = c.get_position(position_key).unwrap();
    assert_eq!(position.principal_deposited, 200);
    assert!(position.principal_deposited >= 0);
}

#[test]
fn test_withdraw_strategy_insufficient_balance() {
    let (mut c, _admin, strategy) = setup();
    let position_key = StrategyPositionKey::Lock(2);
    route_and_confirm(&mut c, strategy, position_key, 500, 500).unwrap();
    // Simulate strategy balance is 0
    let result = c.withdraw_from_strategy(position_key, 0);
    assert!(matches!(result, Err(SavingsError::InsufficientBalance)));
}

#[test]
fn test_withdraw_strategy_no_underflow() {
    let (mut c, _admin, strategy) = setup();
    let position_key = StrategyPositionKey::Lock(3);
    route_and_confirm(&mut c, strategy, position_key, 1, 1).unwrap();
    // Simulate strategy balance is 2 (should only withdraw 1, no negative)
    let result = c.withdraw_from_strategy(position_key, 2);
    assert!(result.is_ok());
    assert_eq!(result.unwrap(), 1);
    c.confirm_strategy_withdraw(1).unwrap();
    let position = c.get_position(position_key).unwrap();
    assert_eq!(position.principal_deposited, 0);
}

#[test]
fn test_reentrancy_blocked_on_route_deposit() {
    let (mut c, _admin, strategy) = setup();
    let user: u64 = 7;
    c.init_user(user).unwrap();
    let lock_id = c.create_lock_save(user, 1000, 3600, 0).unwrap();

    // The guard stays held across the external deposit call; a strategy
    // calling back into a mutating entry point is refused.
    c.route_lock_to_strategy(lock_id, strategy, 500).unwrap();
    assert_eq!(
        c.deposit_flexi(user, 100, 0),
        Err(SavingsError::ReentrancyDetected)
    );
    let result = c.confirm_strategy_deposit(StrategyPositionKey::Lock(lock_id), 500);
    assert!(result.is_ok());
}

#[test]
fn test_reentrancy_blocked_on_withdraw() {
    let (mut c, _admin, strategy) = setup();
    let user: u64 = 7;
    c.init_user(user).unwrap();
    let lock_id = c.create_lock_save(user, 1000, 3600, 0).unwrap();
    c.route_lock_to_strategy(lock_id, strategy, 500).unwrap();
    c.confirm_strategy_deposit(StrategyPositionKey::Lock(lock_id), 500)
        .unwrap();

    // The guard stays held across the external withdraw call.
    c.withdraw_lock_strategy(lock_id, user, 500).unwrap();
    assert_eq!(
        c.withdraw_flexi(user, 100, 0),
        Err(SavingsError::ReentrancyDetected)
    );
    let result = c.confirm_strategy_withdraw(500);
    assert!(result.is_ok());
}

#[test]
fn test_reentrancy_blocked_on_harvest() {
    let (mut c, admin, strategy) = setup();
    let user: u64 = 7;
    c.init_user(user).unwrap();
    c.initialize_config(admin, 99, 0).unwrap();
    let lock_id = c.create_lock_save(user, 1000, 3600, 0).unwrap();
    c.route_lock_to_strategy(lock_id, strategy, 500).unwrap();
    c.confirm_strategy_deposit(StrategyPositionKey::Lock(lock_id), 500)
        .unwrap();

    // The guard stays held across the external harvest call.
    let profit = c.harvest_begin(strategy, 600).unwrap();
    assert_eq!(profit, 100);
    assert_eq!(
        c.deposit_flexi(user, 100, 0),
        Err(SavingsError::ReentrancyDetected)
    );
    let result = c.harvest_strategy(strategy, 600, 100);
    assert!(result.is_ok());
}

#[test]
fn test_route_rejects_disabled_strategy() {
    let (mut c, admin, strategy) = setup();
    c.disable_strategy(admin, strategy).unwrap();
    let result = c.route_to_strategy(strategy, StrategyPositionKey::Lock(1), 100);
    assert_eq!(result, Err(SavingsError::StrategyDisabled));
    // A disabled strategy remains withdrawable.
    assert!(c.get_strategy(strategy).is_ok());
}

#[test]
fn test_route_rejects_unknown_strategy() {
    let (mut c, _admin, _strategy) = setup();
    let result = c.route_to_strategy(999, StrategyPositionKey::Lock(1), 100);
    assert_eq!(result, Err(SavingsError::StrategyNotFound));
}

#[test]
fn test_confirm_rejects_bad_share_response() {
    let (mut c, _admin, strategy) = setup();
    let key = StrategyPositionKey::Group(4);
    c.route_to_strategy(strategy, key, 250).unwrap();
    let result = c.confirm_strategy_deposit(key, 0);
    assert_eq!(result, Err(SavingsError::InvalidStrategyResponse));
}

#[test]
fn test_harvest_no_profit_is_noop() {
    let (mut c, admin, strategy) = setup();
    c.initialize_config(admin, 99, 0).unwrap();
    route_and_confirm(&mut c, strategy, StrategyPositionKey::Lock(1), 1000, 1000).unwrap();
    // Reported balance does not exceed principal: nothing to harvest.
    assert_eq!(c.harvest_begin(strategy, 1000), Ok(0));
    let perf = c.get_strategy_performance(strategy);
    assert_eq!(perf.total_harvested, 0);
}

#[test]
fn test_harvest_splits_treasury_fee() {
    let (mut c, admin, strategy) = setup();
    let treasury: u64 = 99;
    // 10% protocol fee.
    c.initialize_config(admin, treasury, 1_000).unwrap();
    route_and_confirm(&mut c, strategy, StrategyPositionKey::Lock(1), 1000, 1000).unwrap();
    let profit = c.harvest_begin(strategy, 1500).unwrap();
    assert_eq!(profit, 500);
    // The strategy reports 400 actually harvested: min(500, 400) = 400.
    let harvested = c.harvest_strategy(strategy, 1500, 400).unwrap();
    assert_eq!(harvested, 400);
    // 10% of 400 to the treasury, the rest to the strategy's yield pool.
    assert_eq!(c.get_protocol_fee_balance(treasury), 40);
    let perf = c.get_strategy_performance(strategy);
    assert_eq!(perf.total_harvested, 400);
    // APY estimate: 400 * 10_000 / 1000 = 4000 bps.
    assert_eq!(perf.apy_estimate_bps, 4_000);
}

#[test]
fn test_registry_round_trip() {
    let (mut c, admin, strategy) = setup();
    let info = c.get_strategy(strategy).unwrap();
    assert!(info.enabled);
    assert_eq!(info.risk_level, 1);
    assert_eq!(c.get_all_strategies(), vec![strategy]);
    c.register_strategy(admin, 200, 3).unwrap();
    assert_eq!(c.get_all_strategies(), vec![strategy, 200]);
    assert_eq!(
        c.get_strategy(12345),
        Err(SavingsError::StrategyNotFound)
    );
}

use nestera::contract::NesteraContract;
use nestera::errors::SavingsError;
use nestera::plans::PlanType;

fn setup() -> (NesteraContract, u64, u64) {
    let mut c = NesteraContract::new();
    let admin: u64 = 1;
    let user: u64 = 2;
    c.initialize(admin).unwrap();
    c.init_user(user).unwrap();
    (c, admin, user)
}

#[test]
fn test_flexi_deposit_withdraw_round_trip() {
    let (mut c, _admin, user) = setup();
    c.deposit_flexi(user, 1_000, 0).unwrap();
    assert_eq!(c.get_flexi_balance(user), 1_000);
    assert_eq!(c.get_user(user).unwrap().total_balance, 1_000);
    c.withdraw_flexi(user, 400, 0).unwrap();
    assert_eq!(c.get_flexi_balance(user), 600);
    assert_eq!(c.get_user(user).unwrap().total_balance, 600);
    assert_eq!(
        c.withdraw_flexi(user, 601, 0),
        Err(SavingsError::InsufficientBalance)
    );
    assert_eq!(c.get_flexi_balance(user), 600);
}

#[test]
fn test_flexi_requires_account() {
    let mut c = NesteraContract::new();
    c.initialize(1).unwrap();
    assert_eq!(c.deposit_flexi(9, 100, 0), Err(SavingsError::UserNotFound));
}

#[test]
fn test_create_savings_plan_assigns_sequential_ids() {
    let (mut c, _admin, user) = setup();
    let p1 = c.create_savings_plan(user, PlanType::Flexi, 1_000, 5).unwrap();
    let p2 = c.create_savings_plan(user, PlanType::Goal, 0, 6).unwrap();
    assert_eq!(p1, 1);
    assert_eq!(p2, 2);
    let plan = c.get_savings_plan(user, p1).unwrap();
    assert_eq!(plan.balance, 1_000);
    assert_eq!(plan.plan_type, PlanType::Flexi);
    assert!(c.get_savings_plan(user, 3).is_none());
    assert_eq!(c.get_user(user).unwrap().total_balance, 1_000);
    assert_eq!(c.get_user(user).unwrap().savings_count, 2);
}

#[test]
fn test_create_savings_plan_rejects_negative() {
    let (mut c, _admin, user) = setup();
    assert_eq!(
        c.create_savings_plan(user, PlanType::Flexi, -1, 0),
        Err(SavingsError::InvalidAmount)
    );
}

#[test]
fn test_lock_save_early_break_pays_fee() {
    let (mut c, _admin, user) = setup();
    c.set_early_break_fee_bps(1_000).unwrap(); // 10%
    let lock_id = c.create_lock_save(user, 1_000, 3_600, 100).unwrap();
    assert!(!c.check_matured_lock(lock_id, 200));
    // Breaking at t=200, well before maturity at 3700: 10% fee.
    let payout = c.withdraw_lock_save(user, lock_id, 200).unwrap();
    assert_eq!(payout, 900);
    assert_eq!(
        c.withdraw_lock_save(user, lock_id, 201),
        Err(SavingsError::AlreadyWithdrawn)
    );
}

#[test]
fn test_lock_save_mature_withdrawal_pays_interest() {
    let (mut c, admin, user) = setup();
    c.set_early_break_fee_bps(1_000).unwrap();
    // 5% flat for the 0-day duration tier (3600 seconds rounds to 0 days).
    c.set_lock_rate(admin, 0, 500).unwrap();
    let lock_id = c.create_lock_save(user, 1_000, 3_600, 100).unwrap();
    assert!(c.check_matured_lock(lock_id, 3_700));
    let payout = c.withdraw_lock_save(user, lock_id, 3_700).unwrap();
    assert_eq!(payout, 1_050);
    assert_eq!(c.get_user(user).unwrap().total_balance, 0);
}

#[test]
fn test_lock_save_listing_and_ownership() {
    let (mut c, _admin, user) = setup();
    let other: u64 = 3;
    c.init_user(other).unwrap();
    let l1 = c.create_lock_save(user, 100, 60, 0).unwrap();
    let l2 = c.create_lock_save(user, 200, 60, 0).unwrap();
    let l3 = c.create_lock_save(other, 300, 60, 0).unwrap();
    assert_eq!(c.get_user_lock_saves(user), vec![l1, l2]);
    assert_eq!(c.get_user_lock_saves(other), vec![l3]);
    assert_eq!(
        c.withdraw_lock_save(other, l1, 0),
        Err(SavingsError::Unauthorized)
    );
    assert_eq!(
        c.withdraw_lock_save(user, 999, 0),
        Err(SavingsError::LockNotFound)
    );
}

#[test]
fn test_goal_save_lifecycle() {
    let (mut c, _admin, user) = setup();
    let goal_id = c.create_goal_save(user, 7, 500, 100, 0).unwrap();
    let goal = c.get_goal_save_detail(goal_id).unwrap();
    assert_eq!(goal.target_amount, 500);
    assert_eq!(goal.current_amount, 100);
    assert!(!goal.is_completed);
    // An incomplete goal cannot take the completed-withdrawal path.
    assert_eq!(
        c.withdraw_completed_goal_save(user, goal_id),
        Err(SavingsError::GoalNotCompleted)
    );
    // Completing it.
    c.deposit_to_goal_save(user, goal_id, 400, 10).unwrap();
    let goal = c.get_goal_save_detail(goal_id).unwrap();
    assert!(goal.is_completed);
    // A completed goal cannot be broken, only withdrawn.
    assert_eq!(
        c.break_goal_save(user, goal_id),
        Err(SavingsError::PlanCompleted)
    );
    let payout = c.withdraw_completed_goal_save(user, goal_id).unwrap();
    assert_eq!(payout, 500);
    assert_eq!(
        c.withdraw_completed_goal_save(user, goal_id),
        Err(SavingsError::AlreadyWithdrawn)
    );
}

#[test]
fn test_goal_save_break_returns_accumulated() {
    let (mut c, _admin, user) = setup();
    let goal_id = c.create_goal_save(user, 7, 500, 100, 0).unwrap();
    c.deposit_to_goal_save(user, goal_id, 50, 1).unwrap();
    let refunded = c.break_goal_save(user, goal_id).unwrap();
    assert_eq!(refunded, 150);
    assert_eq!(c.get_user(user).unwrap().total_balance, 0);
    assert_eq!(
        c.deposit_to_goal_save(user, goal_id, 10, 2),
        Err(SavingsError::AlreadyWithdrawn)
    );
    assert_eq!(c.get_user_goal_saves(user), vec![goal_id]);
}

#[test]
fn test_goal_save_rejects_bad_inputs() {
    let (mut c, _admin, user) = setup();
    assert_eq!(
        c.create_goal_save(user, 7, 0, 0, 0),
        Err(SavingsError::InvalidAmount)
    );
    assert_eq!(
        c.create_goal_save(user, 7, 100, -1, 0),
        Err(SavingsError::InvalidAmount)
    );
    assert_eq!(
        c.deposit_to_goal_save(user, 999, 10, 0),
        Err(SavingsError::PlanNotFound)
    );
}

#[test]
fn test_group_save_contributions_stay_separate() {
    let (mut c, _admin, user) = setup();
    let other: u64 = 3;
    c.init_user(other).unwrap();
    let group_id = c
        .create_group_save(
            user,
            String::from("trip"),
            String::from("shared savings"),
            String::from("travel"),
            10_000,
            0,
            100,
            true,
            0,
            1_000_000,
        )
        .unwrap();
    c.join_group_save(other, group_id).unwrap();
    c.contribute_to_group_save(user, group_id, 300, 10).unwrap();
    c.contribute_to_group_save(other, group_id, 200, 11).unwrap();
    // Breaking refunds only the caller's own contribution.
    c.break_group_save(other, group_id).unwrap();
    assert_eq!(c.get_user(user).unwrap().total_balance, 300);
    assert_eq!(c.get_user(other).unwrap().total_balance, 0);
    // The pool keeps the remaining member's share.
    c.contribute_to_group_save(user, group_id, 100, 12).unwrap();
    assert_eq!(c.get_user(user).unwrap().total_balance, 400);
}

#[test]
fn test_group_save_private_requires_invitation() {
    let (mut c, _admin, user) = setup();
    let stranger: u64 = 9;
    c.init_user(stranger).unwrap();
    let group_id = c
        .create_group_save(
            user,
            String::from("club"),
            String::from("invite only"),
            String::from("private"),
            1_000,
            0,
            10,
            false,
            0,
            1_000_000,
        )
        .unwrap();
    assert_eq!(
        c.join_group_save(stranger, group_id),
        Err(SavingsError::Unauthorized)
    );
    // Non-members cannot contribute.
    assert_eq!(
        c.contribute_to_group_save(stranger, group_id, 10, 0),
        Err(SavingsError::Unauthorized)
    );
    // The creator is a member from the start.
    c.contribute_to_group_save(user, group_id, 10, 0).unwrap();
}

#[test]
fn test_group_save_completes_at_target() {
    let (mut c, _admin, user) = setup();
    let group_id = c
        .create_group_save(
            user,
            String::from("goalpool"),
            String::from(""),
            String::from(""),
            100,
            0,
            0,
            true,
            0,
            1_000_000,
        )
        .unwrap();
    c.contribute_to_group_save(user, group_id, 100, 0).unwrap();
    // A completed pool takes no further contributions and cannot be broken.
    assert_eq!(
        c.contribute_to_group_save(user, group_id, 1, 1),
        Err(SavingsError::PlanCompleted)
    );
    assert_eq!(
        c.break_group_save(user, group_id),
        Err(SavingsError::PlanCompleted)
    );
}

#[test]
fn test_emergency_withdraw_flexi_and_lock() {
    let (mut c, admin, user) = setup();
    c.deposit_flexi(user, 700, 0).unwrap();
    let taken = c
        .emergency_withdraw(admin, user, PlanType::Flexi, 0)
        .unwrap();
    assert_eq!(taken, 700);
    assert_eq!(c.get_flexi_balance(user), 0);
    assert_eq!(c.get_user(user).unwrap().total_balance, 0);
    assert!(c.is_strategy_disabled(PlanType::Flexi, 0));
    // The same (kind, id) pair cannot run twice.
    assert_eq!(
        c.emergency_withdraw(admin, user, PlanType::Flexi, 0),
        Err(SavingsError::StrategyDisabled)
    );

    let lock_id = c.create_lock_save(user, 400, 3_600, 0).unwrap();
    let taken = c
        .emergency_withdraw(admin, user, PlanType::Lock, lock_id)
        .unwrap();
    assert_eq!(taken, 400);
    assert_eq!(
        c.withdraw_lock_save(user, lock_id, 9_999),
        Err(SavingsError::AlreadyWithdrawn)
    );
}

#[test]
fn test_emergency_withdraw_requires_admin() {
    let (mut c, _admin, user) = setup();
    assert_eq!(
        c.emergency_withdraw(user, user, PlanType::Flexi, 0),
        Err(SavingsError::Unauthorized)
    );
}

#[test]
fn test_rate_configuration() {
    let (mut c, admin, user) = setup();
    assert_eq!(c.set_flexi_rate(user, 100), Err(SavingsError::Unauthorized));
    assert_eq!(
        c.set_flexi_rate(admin, -1),
        Err(SavingsError::InvalidInterestRate)
    );
    c.set_flexi_rate(admin, 250).unwrap();
    c.set_goal_rate(admin, 300).unwrap();
    c.set_group_rate(admin, 350).unwrap();
    c.set_lock_rate(admin, 30, 500).unwrap();
    assert_eq!(c.get_flexi_rate(), 250);
    assert_eq!(c.get_goal_rate(), 300);
    assert_eq!(c.get_group_rate(), 350);
    assert_eq!(c.get_lock_rate(30), Ok(500));
    assert_eq!(c.get_lock_rate(60), Err(SavingsError::PlanNotFound));
}

#[test]
fn test_config_lifecycle() {
    let (mut c, admin, user) = setup();
    assert_eq!(c.get_config(), Err(SavingsError::InternalError));
    c.initialize_config(admin, 99, 500).unwrap();
    assert_eq!(
        c.initialize_config(admin, 99, 500),
        Err(SavingsError::ConfigAlreadyInitialized)
    );
    let config = c.get_config().unwrap();
    assert_eq!(config.treasury, 99);
    assert_eq!(config.protocol_fee_bps, 500);
    assert_eq!(c.set_treasury(user, 98), Err(SavingsError::Unauthorized));
    c.set_treasury(admin, 98).unwrap();
    c.set_protocol_fee(admin, 700).unwrap();
    assert_eq!(
        c.set_protocol_fee(admin, 10_001),
        Err(SavingsError::InvalidFeeBps)
    );
    let config = c.get_config().unwrap();
    assert_eq!(config.treasury, 98);
    assert_eq!(config.protocol_fee_bps, 700);
    c.pause_contract(admin).unwrap();
    assert!(c.is_paused());
    c.unpause_contract(admin).unwrap();
    assert!(!c.is_paused());
}

#[test]
fn test_admin_handover() {
    let (mut c, admin, user) = setup();
    assert_eq!(c.set_admin(user, user), Err(SavingsError::Unauthorized));
    c.set_admin(admin, user).unwrap();
    // The old administrator lost the role.
    assert_eq!(c.pause(admin), Err(SavingsError::Unauthorized));
    c.pause(user).unwrap();
}

#[test]
fn test_fee_settings() {
    let (mut c, _admin, _user) = setup();
    assert_eq!(
        c.set_early_break_fee_bps(10_001),
        Err(SavingsError::InvalidAmount)
    );
    c.set_early_break_fee_bps(250).unwrap();
    assert_eq!(c.get_early_break_fee_bps(), 250);
    assert_eq!(
        c.set_protocol_fee_bps(10_001),
        Err(SavingsError::InvalidAmount)
    );
    c.set_protocol_fee_bps(100).unwrap();
    assert_eq!(c.get_protocol_fee_bps(), 100);
    assert_eq!(c.get_fee_recipient(), None);
    c.set_fee_recipient(42).unwrap();
    assert_eq!(c.get_fee_recipient(), Some(42));
}

#[test]
fn test_plan_ids_are_scoped_per_user() {
    let (mut c, _admin, user) = setup();
    let other: u64 = 3;
    c.init_user(other).unwrap();
    let p1 = c.create_savings_plan(user, PlanType::Flexi, 100, 0).unwrap();
    assert_eq!(p1, 1);
    // The other account has no plan 1 of its own.
    assert!(c.get_savings_plan(other, 1).is_none());
    let q1 = c.create_savings_plan(other, PlanType::Goal, 200, 0).unwrap();
    assert_eq!(q1, 1);
    assert_eq!(c.get_savings_plan(user, 1).unwrap().balance, 100);
    assert_eq!(c.get_savings_plan(other, 1).unwrap().balance, 200);
}

#[test]
fn test_group_contributions_scoped_per_group() {
    let (mut c, _admin, user) = setup();
    let g1 = c
        .create_group_save(
            user,
            String::from("one"),
            String::from(""),
            String::from(""),
            1_000,
            0,
            0,
            true,
            0,
            1_000_000,
        )
        .unwrap();
    let g2 = c
        .create_group_save(
            user,
            String::from("two"),
            String::from(""),
            String::from(""),
            1_000,
            0,
            0,
            true,
            0,
            1_000_000,
        )
        .unwrap();
    c.contribute_to_group_save(user, g1, 300, 0).unwrap();
    // Breaking the stake in the second group refunds nothing: the 300
    // belongs to the first group's ledger.
    c.break_group_save(user, g2).unwrap();
    assert_eq!(c.get_user(user).unwrap().total_balance, 300);
    c.break_group_save(user, g1).unwrap();
    assert_eq!(c.get_user(user).unwrap().total_balance, 0);
}

#[test]
fn test_end_to_end_micro_deposits_leave_no_points() {
    let (mut c, admin, user) = setup();
    c.init_rewards_config(admin, 10, 500, 0, 0, true, 100, 60, 10_000, 2_000)
        .unwrap();
    for _ in 0..100 {
        c.deposit_flexi(user, 50, 1_000).unwrap();
    }
    assert_eq!(c.get_user_rewards(user).total_points, 0);
    assert_eq!(c.get_flexi_balance(user), 5_000);
}

use nestera::contract::NesteraContract;
use nestera::errors::ContractError;
use nestera::errors::SavingsError;
use nestera::plans::MintPayload;
use nestera::security::ReentrancyGuard;

fn setup() -> (NesteraContract, u64, u64) {
    let mut c = NesteraContract::new();
    let admin: u64 = 1;
    let user: u64 = 2;
    c.initialize(admin).unwrap();
    c.init_user(user).unwrap();
    (c, admin, user)
}

#[test]
fn test_reentrancy_guard_exists() {
    // The reentrancy guard mechanism is properly integrated: a fresh
    // guard can be acquired, refuses a second acquisition, and is free
    // again after a release.
    let mut guard = ReentrancyGuard::new();
    assert!(guard.acquire().is_ok());
    assert_eq!(guard.acquire(), Err(SavingsError::ReentrancyDetected));
    guard.release();
    assert!(guard.acquire().is_ok());
}

#[test]
fn test_reentrancy_protection() {
    let (mut c, _admin, _user) = setup();

    // Acquire reentrancy guard
    assert!(c.acquire_reentrancy_guard().is_ok());

    // Attempt to acquire again should fail
    assert!(c.acquire_reentrancy_guard().is_err());

    // Release reentrancy guard
    c.release_reentrancy_guard();

    // Should be able to acquire again
    assert!(c.acquire_reentrancy_guard().is_ok());
}

#[test]
fn test_overflow_protection() {
    let (mut c, _admin, user) = setup();
    c.deposit_flexi(user, i128::MAX, 0).unwrap();
    assert_eq!(c.deposit_flexi(user, 1, 0), Err(SavingsError::Overflow));
    // The failed deposit changed nothing.
    assert_eq!(c.get_flexi_balance(user), i128::MAX);
}

#[test]
fn test_negative_deposit_protection() {
    let (mut c, _admin, user) = setup();
    assert_eq!(c.deposit_flexi(user, 0, 0), Err(SavingsError::InvalidAmount));
    assert_eq!(c.deposit_flexi(user, -5, 0), Err(SavingsError::InvalidAmount));
    assert_eq!(c.get_flexi_balance(user), 0);
}

#[test]
fn test_pause_invariant() {
    let (mut c, admin, user) = setup();
    c.pause(admin).unwrap();
    assert!(c.is_paused());
    assert_eq!(c.deposit_flexi(user, 100, 0), Err(SavingsError::ContractPaused));
    c.unpause(admin).unwrap();
    assert!(!c.is_paused());
    assert!(c.deposit_flexi(user, 100, 0).is_ok());
}

#[test]
fn test_pause_requires_admin() {
    let (mut c, _admin, user) = setup();
    assert_eq!(c.pause(user), Err(SavingsError::Unauthorized));
    assert!(!c.is_paused());
}

#[test]
fn test_mint_window() {
    let mut c = NesteraContract::new();
    let payload = MintPayload {
        user: 2,
        amount: 5_000,
        timestamp: 1_000,
        expiry_duration: 600,
    };
    assert_eq!(
        c.verify_signature(&payload, 1_100),
        Err(ContractError::NotInitialized)
    );
    c.initialize(1).unwrap();
    assert_eq!(c.verify_signature(&payload, 1_600), Ok(()));
    assert_eq!(c.mint(&payload, 1_600), Ok(5_000));
    assert_eq!(
        c.mint(&payload, 1_601),
        Err(ContractError::SignatureExpired)
    );
}

#[test]
fn test_initialize_only_once() {
    let mut c = NesteraContract::new();
    assert!(!c.is_initialized());
    c.initialize(1).unwrap();
    assert!(c.is_initialized());
    assert!(c.initialize(2).is_err());
}

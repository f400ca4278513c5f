use nestera::errors::SavingsError;
use nestera::fees::calculate_fee;
use nestera::fees::calculate_flexi_interest;
use nestera::fees::calculate_lock_interest;
use nestera::fees::compute_apy_bps;

#[test]
fn test_calculate_fee_zero_bps() {
    assert_eq!(calculate_fee(10_000, 0).unwrap(), 0);
    assert_eq!(calculate_fee(1_000_000, 0).unwrap(), 0);
}

#[test]
fn test_calculate_fee_basic() {
    assert_eq!(calculate_fee(10_000, 1_000).unwrap(), 1_000);
    assert_eq!(calculate_fee(10_000, 500).unwrap(), 500);
}

#[test]
fn test_calculate_fee_rounds_down() {
    // 1.25% of 3,333 = 41.6625, should round down to 41
    assert_eq!(calculate_fee(3_333, 125).unwrap(), 41);
    // 2.5% of 4,875 = 121.875, should round down to 121
    assert_eq!(calculate_fee(4_875, 250).unwrap(), 121);
}

#[test]
fn test_calculate_fee_small_amounts() {
    // 1% of 50 = 0.5, should round down to 0
    assert_eq!(calculate_fee(50, 100).unwrap(), 0);
    // 1% of 99 = 0.99, should round down to 0
    assert_eq!(calculate_fee(99, 100).unwrap(), 0);
    // 1% of 100 = 1
    assert_eq!(calculate_fee(100, 100).unwrap(), 1);
}

#[test]
fn test_calculate_fee_max_bps() {
    // 100% of 10,000 = 10,000
    assert_eq!(calculate_fee(10_000, 10_000).unwrap(), 10_000);
}

#[test]
fn test_calculate_fee_fractional_bps() {
    // 0.01% (1 basis point) of 1,000,000 = 100
    assert_eq!(calculate_fee(1_000_000, 1).unwrap(), 100);
}

#[test]
fn test_calculate_fee_rejects_rate_above_whole() {
    assert_eq!(calculate_fee(100, 10_001), Err(SavingsError::InvalidFeeBps));
}

#[test]
fn test_calculate_fee_overflow() {
    assert_eq!(calculate_fee(i128::MAX, 2), Err(SavingsError::Overflow));
}

#[test]
fn test_calculate_fee_never_exceeds_amount() {
    for bps in [1u32, 125, 5_000, 9_999, 10_000] {
        for amount in [0i128, 1, 99, 10_000, 123_456_789] {
            let fee = calculate_fee(amount, bps).unwrap();
            assert!(fee >= 0);
            assert!(fee <= amount);
        }
    }
}

#[test]
fn test_compute_apy_basic() {
    // 500 harvested on 10,000 deposited = 5% = 500 bps
    assert_eq!(compute_apy_bps(10_000, 500), 500);
    // floor(333 * 10_000 / 10_000) = 333
    assert_eq!(compute_apy_bps(10_000, 333), 333);
    // floor(1 * 10_000 / 3) = 3333
    assert_eq!(compute_apy_bps(3, 1), 3_333);
}

#[test]
fn test_compute_apy_zero_deposited() {
    assert_eq!(compute_apy_bps(0, 77), 0);
    assert_eq!(compute_apy_bps(-5, 77), 0);
    assert_eq!(compute_apy_bps(10_000, 0), 0);
    assert_eq!(compute_apy_bps(10_000, -1), 0);
}

#[test]
fn test_compute_apy_clamped_at_u32_max() {
    // 1 token deposited, enormous harvest: the estimate clamps.
    assert_eq!(compute_apy_bps(1, i128::MAX), u32::MAX);
    // Just over the clamp boundary: 429_497 * 10_000 > u32::MAX.
    assert_eq!(compute_apy_bps(1, 429_497), u32::MAX);
    // Exactly representable: 429_496 * 10_000 = 4_294_960_000 <= u32::MAX.
    assert_eq!(compute_apy_bps(1, 429_496), 4_294_960_000);
}

#[test]
fn test_compute_apy_huge_operands_exact() {
    // The product harvested * 10_000 leaves the i128 range; the result is
    // still the exact floor: (MAX - 1) * 10_000 / MAX = 9_999.
    assert_eq!(compute_apy_bps(i128::MAX, i128::MAX - 1), 9_999);
    // Half of an enormous pool: exactly 50%.
    let d = i128::MAX - 1;
    assert_eq!(compute_apy_bps(d, d / 2), 5_000);
    // Harvest smaller than the pool with both out of the product range:
    // 5e34 * 10_000 / 1e35 = 5_000 exactly.
    let pool: i128 = 100_000_000_000_000_000_000_000_000_000_000_000;
    assert_eq!(compute_apy_bps(pool, pool / 2), 5_000);
    assert_eq!(compute_apy_bps(pool, pool / 3), 3_333);
}

#[test]
fn test_flexi_interest_formula() {
    // One year at 5% on 1e9: 1e9 * 500 * 31_536_000 / 315_360_000_000 = 5e7.
    assert_eq!(calculate_flexi_interest(1_000_000_000, 500, 31_536_000), 50_000_000);
    assert_eq!(calculate_flexi_interest(0, 500, 1000), 0);
    assert_eq!(calculate_flexi_interest(1000, 0, 1000), 0);
    assert_eq!(calculate_flexi_interest(-5, 500, 1000), 0);
}

#[test]
fn test_lock_interest_formula() {
    assert_eq!(calculate_lock_interest(1_000, 500), 50);
    assert_eq!(calculate_lock_interest(10_000, 10_000), 10_000);
    assert_eq!(calculate_lock_interest(0, 500), 0);
    assert_eq!(calculate_lock_interest(1_000, -1), 0);
}

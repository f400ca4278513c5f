//! Pure arithmetic: basis-point fees, APY estimates and interest formulas.

use vstd::prelude::*;

use crate::errors::SavingsError;

verus! {

/// Rust's truncating division for a positive divisor: rounds toward zero.
pub open spec fn div_trunc(a: int, b: int) -> int
    recommends
        b > 0,
{
    if a >= 0 {
        a / b
    } else {
        -((-a) / b)
    }
}

/// The fee, in tokens, that a basis-point rate takes from an amount:
/// `amount * bps / 10_000`, rounded toward zero.
pub open spec fn spec_fee(amount: int, bps: int) -> int {
    div_trunc(amount * bps, 10_000)
}

/// Converts an amount and a basis-point rate into a fee, with
/// overflow-checked multiplication and floor rounding (for non-negative
/// amounts, rounding toward zero and flooring agree).
pub fn calculate_fee(amount: i128, fee_bps: u32) -> (r: Result<i128, SavingsError>)
    ensures
        fee_bps == 0 ==> r == Ok::<i128, SavingsError>(0i128),
        fee_bps > 10_000 ==> r == Err::<i128, SavingsError>(SavingsError::InvalidFeeBps),
        0 < fee_bps <= 10_000 && i128::MIN <= amount * fee_bps <= i128::MAX ==> r
            == Ok::<i128, SavingsError>(spec_fee(amount as int, fee_bps as int) as i128),
        0 < fee_bps <= 10_000 && !(i128::MIN <= amount * fee_bps <= i128::MAX) ==> r
            == Err::<i128, SavingsError>(SavingsError::Overflow),
{
    if fee_bps == 0 {
        return Ok(0);
    }
    if fee_bps > 10_000 {
        return Err(SavingsError::InvalidFeeBps);
    }
    let total = match amount.checked_mul(fee_bps as i128) {
        Some(t) => t,
        None => {
            return Err(SavingsError::Overflow);
        },
    };
    Ok(total / 10_000)
}

/// Law: for any non-negative amount and any rate of at most 10,000 basis
/// points, the fee equals `floor(amount * bps / 10_000)` and never exceeds
/// the amount itself.
pub proof fn lemma_fee_bounded(amount: int, bps: int)
    requires
        amount >= 0,
        0 <= bps <= 10_000,
    ensures
        spec_fee(amount, bps) == (amount * bps) / 10_000,
        0 <= spec_fee(amount, bps) <= amount,
{
    assert(amount * bps >= 0) by (nonlinear_arith)
        requires
            amount >= 0,
            bps >= 0,
    ;
    vstd::arithmetic::div_mod::lemma_div_pos_is_pos(amount * bps, 10_000);
    assert(amount * bps <= 10_000 * amount) by (nonlinear_arith)
        requires
            amount >= 0,
            0 <= bps <= 10_000,
    ;
    vstd::arithmetic::div_mod::lemma_div_is_ordered(amount * bps, 10_000 * amount, 10_000);
    vstd::arithmetic::div_mod::lemma_div_multiples_vanish(amount, 10_000);
}

/// Law: for any rate of at most 10,000 basis points the fee never exceeds
/// the amount in magnitude and keeps its sign.
pub proof fn lemma_fee_range(amount: int, bps: int)
    requires
        0 <= bps <= 10_000,
    ensures
        amount >= 0 ==> 0 <= spec_fee(amount, bps) <= amount,
        amount < 0 ==> amount <= spec_fee(amount, bps) <= 0,
{
    if amount >= 0 {
        lemma_fee_bounded(amount, bps);
    } else {
        lemma_fee_bounded(-amount, bps);
        assert((-amount) * bps == -(amount * bps)) by (nonlinear_arith);
    }
}

/// The APY estimate in basis points: `floor(harvested * 10_000 / deposited)`,
/// clamped to the `u32` range; 0 when nothing was deposited or harvested.
pub open spec fn spec_apy_bps(deposited: int, harvested: int) -> int {
    if deposited <= 0 || harvested <= 0 {
        0
    } else if (harvested * 10_000) / deposited > u32::MAX {
        u32::MAX as int
    } else {
        (harvested * 10_000) / deposited
    }
}

/// Whether `f * d <= rem * 10_000`, decided without forming either product
/// in full (both may exceed the `i128` range).
fn frac_le(f: i128, d: i128, rem: i128) -> (r: bool)
    requires
        0 <= f <= 10_000,
        0 < d,
        0 <= rem < d,
    ensures
        r == (f * d <= rem * 10_000),
{
    let dd = d / 10_000;
    let e = d % 10_000;
    proof {
        vstd::arithmetic::div_mod::lemma_fundamental_div_mod(d as int, 10_000);
        vstd::arithmetic::div_mod::lemma_remainder_upper(d as int, 10_000);
        vstd::arithmetic::div_mod::lemma_remainder_lower(d as int, 10_000);
        vstd::arithmetic::div_mod::lemma_div_pos_is_pos(d as int, 10_000);
        assert(f * dd <= 10_000 * dd) by (nonlinear_arith)
            requires
                0 <= f <= 10_000,
                0 <= dd,
        ;
        assert(10_000 * dd <= d) by (nonlinear_arith)
            requires
                d == 10_000 * dd + e,
                0 <= e,
        ;
        assert(0 <= f * dd) by (nonlinear_arith)
            requires
                0 <= f,
                0 <= dd,
        ;
    }
    let fdd = f * dd;
    if fdd > rem {
        proof {
            assert(f * d > rem * 10_000) by (nonlinear_arith)
                requires
                    d == 10_000 * dd + e,
                    0 <= e,
                    0 <= f,
                    f * dd >= rem + 1,
            ;
        }
        false
    } else {
        let g = rem - fdd;
        if g >= 10_000 {
            proof {
                assert(f * d <= rem * 10_000) by (nonlinear_arith)
                    requires
                        d == 10_000 * dd + e,
                        0 <= e < 10_000,
                        0 <= f <= 10_000,
                        rem - f * dd >= 10_000,
                ;
            }
            true
        } else {
            proof {
                assert(0 <= f * e < 100_000_000) by (nonlinear_arith)
                    requires
                        0 <= f <= 10_000,
                        0 <= e < 10_000,
                ;
            }
            let fe = f * e;
            proof {
                assert((f * e <= g * 10_000) == (f * d <= rem * 10_000)) by (nonlinear_arith)
                    requires
                        d == 10_000 * dd + e,
                        g == rem - f * dd,
                        0 <= g < 10_000,
                ;
            }
            fe <= g * 10_000
        }
    }
}

/// `floor(rem * 10_000 / d)` for `0 <= rem < d`, exact even where the
/// product `rem * 10_000` exceeds the `i128` range.
fn apy_frac(rem: i128, d: i128) -> (f: i128)
    requires
        0 < d,
        0 <= rem < d,
    ensures
        f == (rem as int * 10_000) / (d as int),
        0 <= f <= 9_999,
{
    proof {
        assert(rem * 10_000 < d * 10_000) by (nonlinear_arith)
            requires
                0 <= rem < d,
        ;
        vstd::arithmetic::div_mod::lemma_div_pos_is_pos(rem as int * 10_000, d as int);
        assert((rem as int * 10_000) / (d as int) < 10_000) by {
            assert(rem as int * 10_000 < d as int * 10_000) by (nonlinear_arith)
                requires
                    0 <= rem < d,
            ;
            vstd::arithmetic::div_mod::lemma_multiply_divide_lt(
                rem as int * 10_000,
                d as int,
                10_000,
            );
        }
    }
    match rem.checked_mul(10_000) {
        Some(p) => p / d,
        None => {
            let mut lo: i128 = 0;
            let mut hi: i128 = 9_999;
            proof {
                assert(0 * d <= rem * 10_000) by (nonlinear_arith)
                    requires
                        0 <= rem,
                        0 < d,
                ;
                assert((9_999 + 1) * d > rem * 10_000) by (nonlinear_arith)
                    requires
                        rem < d,
                ;
            }
            while lo < hi
                invariant
                    0 <= lo <= hi <= 9_999,
                    0 < d,
                    0 <= rem < d,
                    lo * d <= rem * 10_000,
                    (hi + 1) * d > rem * 10_000,
                decreases hi - lo,
            {
                let mid = lo + (hi - lo + 1) / 2;
                if frac_le(mid, d, rem) {
                    lo = mid;
                } else {
                    hi = mid - 1;
                }
            }
            proof {
                assert((rem as int * 10_000 - lo as int * (d as int)) < d as int)
                    by (nonlinear_arith)
                    requires
                        (lo as int + 1) * (d as int) > rem as int * 10_000,
                ;
                vstd::arithmetic::div_mod::lemma_fundamental_div_mod_converse(
                    rem as int * 10_000,
                    d as int,
                    lo as int,
                    rem as int * 10_000 - lo as int * d as int,
                );
            }
            lo
        },
    }
}

/// Recomputes the APY estimate in basis points from a strategy's running
/// totals: `(total_harvested * 10_000) / total_deposited`, clamped to the
/// `u32` range, and 0 when `total_deposited <= 0` (no division by zero) or
/// nothing positive was harvested.
pub fn compute_apy_bps(total_deposited: i128, total_harvested: i128) -> (r: u32)
    ensures
        r == spec_apy_bps(total_deposited as int, total_harvested as int),
{
    if total_deposited <= 0 || total_harvested <= 0 {
        return 0;
    }
    let d = total_deposited;
    let h = total_harvested;
    let q = h / d;
    let rem = h % d;
    proof {
        vstd::arithmetic::div_mod::lemma_div_pos_is_pos(h as int, d as int);
        vstd::arithmetic::div_mod::lemma_fundamental_div_mod(h as int, d as int);
        vstd::arithmetic::div_mod::lemma_remainder_upper(h as int, d as int);
        vstd::arithmetic::div_mod::lemma_remainder_lower(h as int, d as int);
    }
    if q > 429_496 {
        proof {
            assert(q * 10_000 * d <= h * 10_000) by (nonlinear_arith)
                requires
                    h == d * q + (h % d),
                    0 <= (h % d),
                    0 < d,
            ;
            vstd::arithmetic::div_mod::lemma_div_is_ordered(
                q as int * 10_000 * d as int,
                h as int * 10_000,
                d as int,
            );
            vstd::arithmetic::div_mod::lemma_div_multiples_vanish(q as int * 10_000, d as int);
            assert((h as int * 10_000) / (d as int) >= q as int * 10_000);
        }
        return u32::MAX;
    }
    let f = apy_frac(rem, d);
    let bps = q * 10_000 + f;
    proof {
        assert(rem as int * 10_000 == ((rem as int * 10_000) / (d as int)) * (d as int) + (rem as int * 10_000) % (d as int)) by {
            vstd::arithmetic::div_mod::lemma_fundamental_div_mod(rem as int * 10_000, d as int);
        }
        assert(h * 10_000 == (q * 10_000 + f) * d + (rem * 10_000 - f * d)) by (nonlinear_arith)
            requires
                h == d * q + rem,
        ;
        vstd::arithmetic::div_mod::lemma_remainder_lower(rem as int * 10_000, d as int);
        vstd::arithmetic::div_mod::lemma_remainder_upper(rem as int * 10_000, d as int);
        assert(0 <= rem * 10_000 - f * d < d) by {
            assert(f as int * d as int == rem as int * 10_000 - (rem as int * 10_000) % (d as int)) by (nonlinear_arith)
                requires
                    rem as int * 10_000 == f as int * d as int + (rem as int * 10_000) % (
                    d as int),
            ;
        }
        vstd::arithmetic::div_mod::lemma_fundamental_div_mod_converse(
            h as int * 10_000,
            d as int,
            q as int * 10_000 + f as int,
            rem as int * 10_000 - f as int * d as int,
        );
        assert(bps == (h as int * 10_000) / (d as int));
    }
    if bps > 4_294_967_295 {
        u32::MAX
    } else {
        bps as u32
    }
}

/// The basis-point denominator times the seconds in a (non-leap) year:
/// `10_000 * 365 * 24 * 60 * 60`.
pub const YEAR_BPS_DENOMINATOR: i128 = 315_360_000_000;

/// Simple interest on an instant-access balance over a duration in seconds:
/// `balance * rate * duration / (10_000 * seconds_per_year)`, where the rate
/// is an annual rate in basis points. A product that leaves the `i128`
/// range falls back to 0 rather than failing the whole transaction.
pub open spec fn spec_flexi_interest(balance: int, rate: int, duration_seconds: int) -> int {
    if balance <= 0 || rate <= 0 {
        0
    } else {
        let scaled = if balance * rate > i128::MAX {
            0
        } else {
            balance * rate
        };
        let numerator = if scaled * duration_seconds > i128::MAX {
            0
        } else {
            scaled * duration_seconds
        };
        numerator / 315_360_000_000
    }
}

/// Simple annual-rate interest for an instant-access balance held for a
/// duration in seconds; 0 for a non-positive balance or rate.
pub fn calculate_flexi_interest(balance: i128, rate: i128, duration_seconds: u64) -> (r: i128)
    ensures
        r == spec_flexi_interest(balance as int, rate as int, duration_seconds as int),
{
    if balance <= 0 || rate <= 0 {
        return 0;
    }
    let scaled = match balance.checked_mul(rate) {
        Some(v) => v,
        None => 0,
    };
    let numerator = match scaled.checked_mul(duration_seconds as i128) {
        Some(v) => v,
        None => 0,
    };
    numerator / YEAR_BPS_DENOMINATOR
}

/// Flat interest on a locked amount: `amount * rate / 10_000`.
///
/// Policy choice: the configured rate for a lock's duration tier is taken as
/// the effective rate for the whole term, not as an annualized rate; the
/// payout is a flat percentage of the locked amount. A product that leaves
/// the `i128` range falls back to 0.
pub open spec fn spec_lock_interest(amount: int, rate: int) -> int {
    if amount <= 0 || rate <= 0 {
        0
    } else if amount * rate > i128::MAX {
        0
    } else {
        (amount * rate) / 10_000
    }
}

/// Flat interest for a lock plan; 0 for a non-positive amount or rate.
pub fn calculate_lock_interest(amount: i128, rate: i128) -> (r: i128)
    ensures
        r == spec_lock_interest(amount as int, rate as int),
{
    if amount <= 0 || rate <= 0 {
        return 0;
    }
    let product = match amount.checked_mul(rate) {
        Some(v) => v,
        None => 0,
    };
    product / 10_000
}

} // verus!

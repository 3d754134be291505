use vstd::prelude::*;
use crate::types::{Address, Error, SlippageConfig, BPS_DENOMINATOR, DEFAULT_SLIPPAGE_BPS, MAX_RATE, MAX_SLIPPAGE_BPS};

verus! {

/// A rate is sane when it is positive and no larger than `MAX_RATE`.
pub open spec fn rate_in_bounds(rate: int) -> bool {
    0 < rate <= MAX_RATE
}

/// Deviation of `actual` from `expected`, in whole basis points, rounded down.
pub open spec fn deviation_bps(expected: int, actual: int) -> int {
    let diff = if actual >= expected { actual - expected } else { expected - actual };
    (BPS_DENOMINATOR * diff) / expected
}

/// Whether settling at `actual` when the oracle said `expected` breaks a tolerance of `max_bps`.
pub open spec fn exceeds_tolerance(expected: int, actual: int, max_bps: int) -> bool {
    deviation_bps(expected, actual) > max_bps
}

/// Accepts a rate only when it lies within the sane bounds.
pub fn validate_rate_bounds(rate: i128) -> (r: Result<(), Error>)
    ensures
        r == (if rate_in_bounds(rate as int) { Ok(()) } else { Err(Error::InvalidExchangeRate) }),
{
    if rate > 0 && rate <= MAX_RATE {
        Ok(())
    } else {
        Err(Error::InvalidExchangeRate)
    }
}

/// Accepts a slippage tolerance only up to `MAX_SLIPPAGE_BPS`.
pub fn validate_slippage_bounds(bps: u32) -> (r: Result<(), Error>)
    ensures
        r == (if bps <= MAX_SLIPPAGE_BPS { Ok(()) } else { Err(Error::InvalidSlippageConfig) }),
{
    if bps <= MAX_SLIPPAGE_BPS {
        Ok(())
    } else {
        Err(Error::InvalidSlippageConfig)
    }
}

/// Whether settling at `actual_rate` breaks a tolerance of `max_bps` around a
/// sane `oracle_rate`. Any actual rate is compared, however far off.
pub fn slippage_exceeded(oracle_rate: i128, actual_rate: i128, max_bps: u32) -> (r: bool)
    requires
        rate_in_bounds(oracle_rate as int),
    ensures
        r == exceeds_tolerance(oracle_rate as int, actual_rate as int, max_bps as int),
{
    let b: u128 = oracle_rate as u128;
    let diff: u128 = if actual_rate >= oracle_rate {
        (actual_rate - oracle_rate) as u128
    } else if actual_rate >= 0 {
        (oracle_rate - actual_rate) as u128
    } else {
        b + ((-(actual_rate + 1)) as u128) + 1
    };
    assert(diff == (if actual_rate >= oracle_rate { actual_rate - oracle_rate } else { oracle_rate - actual_rate }));
    if diff >= LARGE_DEVIATION {
        // Far beyond any 32-bit tolerance: 10_000 * diff >= (max_bps + 1) * oracle_rate.
        proof {
            let x = BPS_DENOMINATOR * diff;
            let m = max_bps as int + 1;
            assert(m * b <= x) by (nonlinear_arith)
                requires
                    0 < m <= 0x1_0000_0000,
                    0 < b <= MAX_RATE,
                    x == BPS_DENOMINATOR * diff,
                    diff >= LARGE_DEVIATION,
            ;
            vstd::arithmetic::div_mod::lemma_div_is_ordered(m * b, x, b as int);
            vstd::arithmetic::div_mod::lemma_div_by_multiple(m, b as int);
        }
        return true;
    }
    let scaled: u128 = 10_000 * diff;
    scaled / b > max_bps as u128
}

/// Deviations from this size on exceed every 32-bit tolerance at any sane rate.
const LARGE_DEVIATION: u128 = 0x4_0000_0000_0000_0000_0000;

/// The slippage settings a freshly initialized contract starts with.
pub fn default_slippage_config(admin: Address) -> (r: SlippageConfig)
    ensures
        r.max_slippage_bps == DEFAULT_SLIPPAGE_BPS,
        r.admin == admin,
{
    SlippageConfig { max_slippage_bps: DEFAULT_SLIPPAGE_BPS, admin }
}

} // verus!

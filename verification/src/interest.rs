//! The interest calculator: principal, rate and elapsed time give the
//! interest owed, as simple (non-compounding) annualised interest.
//!
//! The formula is `principal * rate_bps * elapsed_secs / (seconds_per_year *
//! 10000)`, evaluated in 128-bit arithmetic so that the product fits for all
//! realistic inputs. Division truncates towards zero; the floor is a
//! deliberate, conservative choice and must not be rounded.

use crate::market::CreditMarketError;
use vstd::arithmetic::div_mod::lemma_div_is_ordered;
use vstd::prelude::*;

verus! {

/// Seconds in the 365-day year that annualised rates are quoted against.
pub const SECONDS_PER_YEAR: u64 = 365 * 24 * 60 * 60;

/// The interest owed on `principal` at `rate_bps` basis points per year
/// after `duration_secs` seconds, as an unbounded integer: the product of
/// the three inputs, floor-divided by one year's worth of basis points.
pub open spec fn interest_owed(principal: u64, rate_bps: u16, duration_secs: u64) -> int {
    (principal * rate_bps * duration_secs) / ((SECONDS_PER_YEAR * 10000) as int)
}

/// The inputs on which the calculator succeeds: the three-way product has to
/// fit the 128-bit intermediate, and the resulting amount has to fit `u64`.
pub open spec fn interest_fits(principal: u64, rate_bps: u16, duration_secs: u64) -> bool {
    &&& principal * rate_bps * duration_secs <= u128::MAX
    &&& interest_owed(principal, rate_bps, duration_secs) <= u64::MAX
}

/// Computes the interest owed, failing with `MathOverflow` exactly when an
/// intermediate step leaves the width it is computed in. Callers with
/// realistic inputs never see the error: it takes a conjunction of
/// astronomically large principal, rate and duration to reach it.
pub fn calculate_interest(principal: u64, rate_bps: u16, duration_secs: u64) -> (r: Result<
    u64,
    CreditMarketError,
>)
    ensures
        r is Ok <==> interest_fits(principal, rate_bps, duration_secs),
        r matches Ok(v) ==> v == interest_owed(principal, rate_bps, duration_secs),
        r matches Err(e) ==> e == CreditMarketError::MathOverflow,
{
    assert(principal * rate_bps <= u128::MAX) by (nonlinear_arith)
        requires
            principal <= u64::MAX,
            rate_bps <= u16::MAX,
    ;
    let principal_rate: u128 = (principal as u128) * (rate_bps as u128);
    let product: u128 = match principal_rate.checked_mul(duration_secs as u128) {
        Some(p) => p,
        None => {
            return Err(CreditMarketError::MathOverflow);
        },
    };
    let denominator: u128 = (SECONDS_PER_YEAR as u128) * 10000;
    let quotient: u128 = product / denominator;
    if quotient > u64::MAX as u128 {
        return Err(CreditMarketError::MathOverflow);
    }
    Ok(quotient as u64)
}

/// Interest is monotonic: it never decreases when the rate or the elapsed
/// time grows, the principal held fixed.
pub proof fn lemma_interest_monotonic(
    principal: u64,
    rate1: u16,
    rate2: u16,
    dur1: u64,
    dur2: u64,
)
    requires
        rate1 <= rate2,
        dur1 <= dur2,
    ensures
        interest_owed(principal, rate1, dur1) <= interest_owed(principal, rate2, dur2),
{
    assert(principal * rate1 * dur1 <= principal * rate2 * dur2) by (nonlinear_arith)
        requires
            rate1 <= rate2,
            dur1 <= dur2,
    ;
    lemma_div_is_ordered(
        principal * rate1 * dur1,
        principal * rate2 * dur2,
        (SECONDS_PER_YEAR * 10000) as int,
    );
}

/// No time elapsed means no interest owed, whatever the principal and rate.
pub proof fn lemma_interest_zero_duration(principal: u64, rate_bps: u16)
    ensures
        interest_owed(principal, rate_bps, 0) == 0,
{
    assert(principal * rate_bps * 0 == 0) by (nonlinear_arith);
}

} // verus!

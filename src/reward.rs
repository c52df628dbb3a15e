use vstd::prelude::*;

use vstd::arithmetic::div_mod::{lemma_div_is_ordered, lemma_div_pos_is_pos};

use crate::error::ErrorCode;

verus! {

/// Basis points in one whole: a rate of 10000 is 100% a year.
pub const BPS_DENOMINATOR: u64 = 10000;

/// Seconds in a 365-day year.
pub const SECONDS_PER_YEAR: u64 = 31536000;

/// `BPS_DENOMINATOR * SECONDS_PER_YEAR`, the divisor of every yield.
pub const YIELD_DENOMINATOR: u128 = 315360000000;

/// The rate a new pool is configured with: 10% a year.
pub const DEFAULT_REWARD_RATE: u64 = 1000;

/// Yield on `principal` at `rate_bps` basis points a year over `elapsed`
/// seconds, rounded down.
pub open spec fn yield_of(principal: int, rate_bps: int, elapsed: int) -> int {
    principal * rate_bps * elapsed / (YIELD_DENOMINATOR as int)
}

/// The widened product fits in 128 bits and the yield in 64.
pub open spec fn yield_fits(principal: int, rate_bps: int, elapsed: int) -> bool {
    principal * rate_bps * elapsed <= u128::MAX && yield_of(principal, rate_bps, elapsed) <= u64::MAX
}

/// Time-proportional yield, computed in 128 bits and rounded down, so that
/// many small accruals never pay out more than one large one.
pub fn accrued_yield(principal: u64, rate_bps: u64, elapsed_seconds: i64) -> (r: Result<
    u64,
    ErrorCode,
>)
    requires
        elapsed_seconds >= 0,
    ensures
        r is Ok <==> yield_fits(principal as int, rate_bps as int, elapsed_seconds as int),
        r matches Ok(y) ==> y == yield_of(principal as int, rate_bps as int, elapsed_seconds as int),
        r is Err ==> r == Err::<u64, ErrorCode>(ErrorCode::Overflow),
{
    assert((principal as int) * (rate_bps as int) <= u128::MAX) by (nonlinear_arith)
        requires
            principal <= u64::MAX,
            rate_bps <= u64::MAX,
    ;
    let scaled: u128 = (principal as u128) * (rate_bps as u128);
    match scaled.checked_mul(elapsed_seconds as u128) {
        None => Err(ErrorCode::Overflow),
        Some(product) => {
            let quotient: u128 = product / YIELD_DENOMINATOR;
            if quotient > u64::MAX as u128 {
                Err(ErrorCode::Overflow)
            } else {
                Ok(quotient as u64)
            }
        },
    }
}

/// Yield at the default rate of 10% a year over `duration` seconds. A
/// duration that is not positive accrues nothing.
pub fn calculate_rewards(amount: u64, duration: i64) -> (r: Result<u64, ErrorCode>)
    ensures
        duration <= 0 ==> r == Ok::<u64, ErrorCode>(0),
        duration > 0 ==> (r is Ok <==> yield_fits(
            amount as int,
            DEFAULT_REWARD_RATE as int,
            duration as int,
        )),
        duration > 0 ==> (r matches Ok(y) ==> y == yield_of(
            amount as int,
            DEFAULT_REWARD_RATE as int,
            duration as int,
        )),
        r is Err ==> r == Err::<u64, ErrorCode>(ErrorCode::Overflow),
{
    if duration <= 0 {
        Ok(0)
    } else {
        accrued_yield(amount, DEFAULT_REWARD_RATE, duration)
    }
}

/// Yield is never negative, and never falls when the principal or the
/// elapsed time grows at a fixed rate.
pub proof fn lemma_yield_monotonic(principal_lo: u64, principal_hi: u64, rate_bps: u64, elapsed_lo: i64, elapsed_hi: i64)
    requires
        principal_lo <= principal_hi,
        0 <= elapsed_lo <= elapsed_hi,
    ensures
        0 <= yield_of(principal_lo as int, rate_bps as int, elapsed_lo as int),
        yield_of(principal_lo as int, rate_bps as int, elapsed_lo as int) <= yield_of(
            principal_hi as int,
            rate_bps as int,
            elapsed_hi as int,
        ),
{
    let a = principal_lo as int * rate_bps as int * elapsed_lo as int;
    let b = principal_hi as int * rate_bps as int * elapsed_hi as int;
    assert(0 <= a <= b) by (nonlinear_arith)
        requires
            0 <= principal_lo <= principal_hi,
            0 <= rate_bps,
            0 <= elapsed_lo <= elapsed_hi,
            a == principal_lo as int * rate_bps as int * elapsed_lo as int,
            b == principal_hi as int * rate_bps as int * elapsed_hi as int,
    ;
    lemma_div_pos_is_pos(a, YIELD_DENOMINATOR as int);
    lemma_div_is_ordered(a, b, YIELD_DENOMINATOR as int);
}

} // verus!

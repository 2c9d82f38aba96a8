use vstd::prelude::*;
use crate::state::{BPS_DENOMINATOR, SECONDS_PER_DAY};
use vstd::arithmetic::div_mod::lemma_fundamental_div_mod;

verus! {

/// Fixed interest owed at maturity: `floor(amount * rate / 10000)`.
pub open spec fn spec_interest(amount: int, rate: int) -> int {
    amount * rate / BPS_DENOMINATOR as int
}

/// Penalty kept on an early exit: `floor(amount * bps / 10000)`.
pub open spec fn spec_penalty(amount: int, bps: int) -> int {
    amount * bps / BPS_DENOMINATOR as int
}

/// Interest accrued over `days` whole days of a `term`-day lock:
/// `floor(amount * rate * days / (10000 * term))`.
pub open spec fn spec_accrued(amount: int, rate: int, days: int, term: int) -> int {
    amount * rate * days / (BPS_DENOMINATOR as int * term)
}

/// Whole days between `from` and `to`, rounded down.
pub open spec fn spec_whole_days(from: int, to: int) -> int {
    (to - from) / SECONDS_PER_DAY as int
}

/// The fixed interest on `amount` at `rate` basis points, or `None` where it
/// does not fit in a `u64`.
pub fn fixed_interest(amount: u64, rate: u64) -> (r: Option<u64>)
    ensures
        spec_interest(amount as int, rate as int) <= u64::MAX ==> r == Some(
            spec_interest(amount as int, rate as int) as u64,
        ),
        spec_interest(amount as int, rate as int) > u64::MAX ==> r is None,
{
    proof {
        assert((amount as int) * (rate as int) <= (u64::MAX as int) * (u64::MAX as int))
            by (nonlinear_arith)
            requires
                amount <= u64::MAX,
                rate <= u64::MAX,
        ;
    }
    let product: u128 = (amount as u128) * (rate as u128);
    let q: u128 = product / (BPS_DENOMINATOR as u128);
    if q <= u64::MAX as u128 {
        Some(q as u64)
    } else {
        None
    }
}

/// Splits `amount` on an early exit into `(penalty, payout)`.
pub fn penalty_split(amount: u64, penalty_rate_bps: u64) -> (r: (u64, u64))
    requires
        penalty_rate_bps <= BPS_DENOMINATOR,
    ensures
        r.0 == spec_penalty(amount as int, penalty_rate_bps as int),
        r.0 + r.1 == amount,
{
    proof {
        assert((amount as int) * (penalty_rate_bps as int) <= (amount as int) * 10000)
            by (nonlinear_arith)
            requires
                penalty_rate_bps <= 10000,
        ;
        assert((amount as int) * (penalty_rate_bps as int) / 10000 <= amount as int)
            by (nonlinear_arith)
            requires
                (amount as int) * (penalty_rate_bps as int) <= (amount as int) * 10000,
        ;
    }
    let product: u128 = (amount as u128) * (penalty_rate_bps as u128);
    let penalty: u64 = (product / (BPS_DENOMINATOR as u128)) as u64;
    (penalty, amount - penalty)
}

/// The interest accrued on `amount` at `rate` basis points for `days` of a
/// `term`-day lock, or `None` where it does not fit in a `u64`.
pub fn accrued_interest(amount: u64, rate: u64, days: u64, term: u64) -> (r: Option<u64>)
    requires
        term == 30 || term == 90,
    ensures
        spec_accrued(amount as int, rate as int, days as int, term as int) <= u64::MAX
            ==> r == Some(spec_accrued(amount as int, rate as int, days as int, term as int) as u64),
        spec_accrued(amount as int, rate as int, days as int, term as int) > u64::MAX ==> r is None,
{
    let ghost exact = spec_accrued(amount as int, rate as int, days as int, term as int);
    proof {
        assert((amount as int) * (rate as int) <= (u64::MAX as int) * (u64::MAX as int))
            by (nonlinear_arith)
            requires
                amount <= u64::MAX,
                rate <= u64::MAX,
        ;
    }
    let ar: u128 = (amount as u128) * (rate as u128);
    let divisor: u128 = (BPS_DENOMINATOR as u128) * (term as u128);
    if days == 0 {
        assert(exact == 0) by (nonlinear_arith)
            requires
                days == 0,
                term > 0,
                exact == spec_accrued(amount as int, rate as int, days as int, term as int),
        ;
        return Some(0);
    }
    if ar > u128::MAX / (days as u128) {
        // The numerator exceeds u128::MAX, and so the quotient exceeds u64::MAX.
        proof {
            let n = (ar as int) * (days as int);
            let m = u128::MAX as int;
            let d = days as int;
            lemma_fundamental_div_mod(m, d);
            assert(n > m) by (nonlinear_arith)
                requires
                    ar as int >= m / d + 1,
                    m == d * (m / d) + m % d,
                    m % d < d,
                    d > 0,
                    n == (ar as int) * d,
            ;
            assert(n / (divisor as int) > u64::MAX) by (nonlinear_arith)
                requires
                    n > m,
                    m == u128::MAX,
                    0 < divisor <= 900000,
            ;
        }
        return None;
    }
    proof {
        assert((ar as int) * (days as int) <= u128::MAX) by (nonlinear_arith)
            requires
                ar as int <= u128::MAX as int / days as int,
                days > 0,
        ;
    }
    let numerator: u128 = ar * (days as u128);
    let q: u128 = numerator / divisor;
    if q <= u64::MAX as u128 {
        Some(q as u64)
    } else {
        None
    }
}

} // verus!

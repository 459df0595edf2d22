//! The vesting schedule engine: a pure function from an instant and a
//! schedule's `(start, cliff, end, total)` parameters to the cumulative
//! entitlement accrued by that instant.

use vstd::prelude::*;

use crate::errors::VestingError;
use vstd::arithmetic::div_mod::lemma_div_is_ordered;
use vstd::arithmetic::div_mod::lemma_div_is_ordered_by_denominator;
use vstd::arithmetic::div_mod::lemma_div_multiples_vanish;
use vstd::arithmetic::mul::lemma_mul_inequality;

verus! {

/// The vested amount at instant `now`, or the reason it cannot be computed.
///
/// - Before the cliff no credit accrues, even though time since `start` may
///   have elapsed.
/// - From `end` on, the full `total` is vested, no matter how far `now`
///   runs past `end`.
/// - In between, the amount interpolates linearly from `start`, with floor
///   rounding: `total * (now - start) / (end - start)`.
/// - An instant inside the window demands a positive window width; a
///   window with `end <= start` is reported as `DegenerateSchedule`, and a
///   product `total * (now - start)` beyond the 64-bit width as
///   `ArithmeticOverflow`.
/// - An instant inside the window but before `start` (possible only when
///   `cliff < start`) accrues nothing.
pub open spec fn vested_spec(now: i64, start: i64, cliff: i64, end: i64, total: u64) -> Result<
    u64,
    VestingError,
> {
    if now < cliff {
        Ok(0u64)
    } else if now >= end {
        Ok(total)
    } else if (end as int - start as int) <= 0 {
        Err(VestingError::DegenerateSchedule)
    } else if (now as int - start as int) < 0 {
        Ok(0u64)
    } else if total as int * (now as int - start as int) > (u64::MAX as int) {
        Err(VestingError::ArithmeticOverflow)
    } else {
        Ok((total as int * (now as int - start as int) / (end as int - start as int)) as u64)
    }
}

/// Whatever the inputs, a computed vested amount never exceeds `total`.
pub proof fn lemma_vested_le_total(now: i64, start: i64, cliff: i64, end: i64, total: u64)
    ensures
        vested_spec(now, start, cliff, end, total) matches Ok(v) ==> v <= total,
{
    let span: int = end as int - start as int;
    let elapsed: int = now as int - start as int;
    let t: int = total as int;
    if cliff <= now && now < end && span > 0 && elapsed >= 0 && t * elapsed <= u64::MAX as int {
        assert(elapsed <= span);
        lemma_mul_inequality(elapsed, span, t);
        assert(elapsed * t <= span * t);
        lemma_div_is_ordered(t * elapsed, span * t, span);
        lemma_div_multiples_vanish(t, span);
        assert((span * t) / span == t);
        assert(t * elapsed / span <= t);
    }
}

/// The vested amount is non-decreasing in time: for one schedule with
/// `start <= cliff <= end` and two instants `t1 <= t2` at which the
/// formula yields an amount, the earlier amount never exceeds the later
/// one.
pub proof fn lemma_vested_monotonic(t1: i64, t2: i64, start: i64, cliff: i64, end: i64, total: u64)
    requires
        start <= cliff,
        cliff <= end,
        t1 <= t2,
        vested_spec(t1, start, cliff, end, total) is Ok,
        vested_spec(t2, start, cliff, end, total) is Ok,
    ensures
        vested_spec(t1, start, cliff, end, total)->Ok_0 <= vested_spec(
            t2,
            start,
            cliff,
            end,
            total,
        )->Ok_0,
{
    lemma_vested_le_total(t1, start, cliff, end, total);
    lemma_vested_le_total(t2, start, cliff, end, total);
    if cliff <= t1 && t1 < end && cliff <= t2 && t2 < end {
        let span: int = end as int - start as int;
        let e1: int = t1 as int - start as int;
        let e2: int = t2 as int - start as int;
        let t: int = total as int;
        assert(span > 0);
        assert(e1 >= 0);
        lemma_mul_inequality(e1, e2, t);
        assert(e1 * t <= e2 * t);
        lemma_div_is_ordered(t * e1, t * e2, span);
    }
}

/// Computes the vested amount at `now` for the schedule
/// `(start, cliff, end, total)`, exactly as [`vested_spec`] states it.
///
/// The product is taken in 128-bit width and then held to the 64-bit
/// bound, so the multiply-then-divide sequence itself cannot wrap.
pub fn vested(now: i64, start: i64, cliff: i64, end: i64, total: u64) -> (r: Result<
    u64,
    VestingError,
>)
    ensures
        r == vested_spec(now, start, cliff, end, total),
        now < cliff ==> r == Ok::<u64, VestingError>(0u64),
        cliff <= end && now >= end ==> r == Ok::<u64, VestingError>(total),
        r matches Ok(v) ==> v <= total,
{
    proof {
        lemma_vested_le_total(now, start, cliff, end, total);
    }
    if now < cliff {
        return Ok(0);
    }
    if now >= end {
        return Ok(total);
    }
    let span: i128 = (end as i128) - (start as i128);
    if span <= 0 {
        return Err(VestingError::DegenerateSchedule);
    }
    let elapsed: i128 = (now as i128) - (start as i128);
    if elapsed < 0 {
        return Ok(0);
    }
    assert(elapsed < span);
    assert(span <= u64::MAX as i128);
    assert((total as int) * (elapsed as int) <= (u64::MAX as int) * (u64::MAX as int))
        by (nonlinear_arith)
        requires
            0 <= total as int <= u64::MAX as int,
            0 <= elapsed as int <= u64::MAX as int,
    ;
    let product: u128 = (total as u128) * (elapsed as u128);
    if product > u64::MAX as u128 {
        return Err(VestingError::ArithmeticOverflow);
    }
    let amount: u64 = (product / (span as u128)) as u64;
    proof {
        lemma_div_is_ordered_by_denominator(product as int, 1, span as int);
        assert(product as int / 1 == product as int);
        assert(product as int / (span as int) <= u64::MAX as int);
    }
    Ok(amount)
}

} // verus!

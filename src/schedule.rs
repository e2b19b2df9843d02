use vstd::prelude::*;
use crate::error::ErrorCode;

verus! {

/// Seconds elapsed since `start`, counted as zero before it.
pub open spec fn elapsed(now: int, start: int) -> int {
    if now <= start { 0 } else { now - start }
}

/// The amount vested at `now` under a linear schedule from `start` to `end`:
/// all of `total` after `end`, else `total` scaled by the elapsed share, rounded down.
pub open spec fn vested(now: int, start: int, end: int, total: int) -> int {
    if now > end {
        total
    } else {
        total * elapsed(now, start) / (end - start)
    }
}

/// The product `total * elapsed` that the linear share needs exceeds 64 bits.
pub open spec fn vesting_overflows(now: int, start: int, end: int, total: int) -> bool {
    now <= end && total * elapsed(now, start) > u64::MAX
}

/// The vested amount at `now`, computed with a checked multiplication.
/// Requires a schedule that ends after it starts.
pub fn vested_amount(now: i64, start_time: i64, end_time: i64, total_amount: u64) -> (r: Result<u64, ErrorCode>)
    requires
        start_time < end_time,
    ensures
        r == if vesting_overflows(now as int, start_time as int, end_time as int, total_amount as int) {
            Err::<u64, ErrorCode>(ErrorCode::CalculationOverflow)
        } else {
            Ok::<u64, ErrorCode>(vested(now as int, start_time as int, end_time as int, total_amount as int) as u64)
        },
{
    if now > end_time {
        return Ok(total_amount);
    }
    let elapsed_secs: u64 = if now <= start_time { 0 } else { ((now as i128) - (start_time as i128)) as u64 };
    let duration: u64 = ((end_time as i128) - (start_time as i128)) as u64;
    match total_amount.checked_mul(elapsed_secs) {
        Some(product) => {
            proof {
                lemma_vested_bounded(now as int, start_time as int, end_time as int, total_amount as int);
            }
            Ok(product / duration)
        },
        None => Err(ErrorCode::CalculationOverflow),
    }
}

/// What a claim may still pay: the vested amount less what was withdrawn, never below zero.
pub fn claimable_amount(vested_now: u64, total_withdrawn: u64) -> (r: u64)
    ensures
        r == if vested_now > total_withdrawn { vested_now - total_withdrawn } else { 0 },
{
    vested_now.saturating_sub(total_withdrawn)
}

/// The vested amount never falls as time goes on.
pub proof fn lemma_vested_monotonic(t1: int, t2: int, start: int, end: int, total: int)
    requires
        start < end,
        t1 <= t2,
        total >= 0,
    ensures
        vested(t1, start, end, total) <= vested(t2, start, end, total),
{
    let d = end - start;
    let e1 = elapsed(t1, start);
    let e2 = elapsed(t2, start);
    assert(total * e1 <= total * e2) by (nonlinear_arith)
        requires total >= 0, 0 <= e1 <= e2;
    vstd::arithmetic::div_mod::lemma_div_is_ordered(total * e1, total * e2, d);
    lemma_vested_bounded(t1, start, end, total);
}

/// Nothing is vested at the start, everything is vested at the end and at any later time.
pub proof fn lemma_vested_endpoints(t: int, start: int, end: int, total: int)
    requires
        start < end,
        end <= t,
        total >= 0,
    ensures
        vested(start, start, end, total) == 0,
        vested(end, start, end, total) == total,
        vested(t, start, end, total) == total,
{
    let d = end - start;
    assert(total * d / d == total) by (nonlinear_arith)
        requires d > 0;
}

/// The vested amount lies between zero and the total, at every instant.
pub proof fn lemma_vested_bounded(now: int, start: int, end: int, total: int)
    requires
        start < end,
        total >= 0,
    ensures
        0 <= vested(now, start, end, total) <= total,
{
    let d = end - start;
    let e = elapsed(now, start);
    if now <= end {
        assert(0 <= total * e <= total * d) by (nonlinear_arith)
            requires total >= 0, 0 <= e <= d;
        vstd::arithmetic::div_mod::lemma_div_is_ordered(total * e, total * d, d);
        vstd::arithmetic::div_mod::lemma_div_is_ordered(0, total * e, d);
        assert(total * d / d == total) by (nonlinear_arith)
            requires d > 0;
    }
}

} // verus!

//! The calibrator: how many busy-loop iterations take one millisecond of CPU.
use vstd::prelude::*;
use crate::clock::{diff_nsec, get_time, ClockError, Timestamp, NSECS_PER_MSEC};

verus! {

/// Iterations timed by a calibration: enough that the clock's resolution does
/// not dominate the error.
pub const NLOOP_FOR_ESTIMATION: u64 = 1_000_000_000;

/// Relies on std::hint::black_box: it hands back its argument unchanged while
/// the optimiser must assume it was read and may have changed, so no iteration
/// of the busy loop can be folded away.
#[verifier::external_body]
fn observed(x: u64) -> (r: u64)
    ensures
        r == x,
{
    std::hint::black_box(x)
}

/// Burns CPU for `nloop` iterations; returns the count of iterations run.
pub fn load(nloop: u64) -> (r: u64)
    ensures
        r == nloop,
{
    let mut done: u64 = 0;
    while done < nloop
        invariant
            done <= nloop,
        decreases nloop - done,
    {
        done = observed(done + 1);
    }
    done
}

/// Iterations per millisecond, from `iterations` run in `elapsed_ns`
/// nanoseconds, where the elapsed time is positive and the rate fits a `u64`.
pub open spec fn rate_of(iterations: u64, elapsed_ns: u64) -> Option<u64> {
    if elapsed_ns > 0 && iterations * NSECS_PER_MSEC / (elapsed_ns as int) <= u64::MAX {
        Some((iterations * NSECS_PER_MSEC / (elapsed_ns as int)) as u64)
    } else {
        None
    }
}

/// Converts a timed run of the busy loop into iterations per millisecond.
pub fn iterations_per_ms(iterations: u64, elapsed_ns: u64) -> (r: Option<u64>)
    ensures
        r == rate_of(iterations, elapsed_ns),
{
    if elapsed_ns == 0 {
        return None;
    }
    let rate: u128 = iterations as u128 * 1_000_000u128 / elapsed_ns as u128;
    if rate > u64::MAX as u128 {
        None
    } else {
        Some(rate as u64)
    }
}

/// The rate measured by `nloop` iterations between the readings `before` and
/// `after`: an error where the span goes back, or is too short to give a rate
/// that fits a `u64`.
pub open spec fn rate_between_of(nloop: u64, before: Timestamp, after: Timestamp) -> Result<u64, ClockError> {
    if before.nanos > after.nanos {
        Err(ClockError::WentBackwards)
    } else {
        match rate_of(nloop, (after.nanos - before.nanos) as u64) {
            Some(rate) => Ok(rate),
            None => Err(ClockError::NotAdvancing),
        }
    }
}

/// Iterations per millisecond of `nloop` iterations timed by the readings
/// `before` and `after`.
pub fn rate_between(nloop: u64, before: Timestamp, after: Timestamp) -> (r: Result<u64, ClockError>)
    ensures
        r == rate_between_of(nloop, before, after),
{
    let elapsed = match diff_nsec(before, after) {
        Ok(d) => d,
        Err(e) => return Err(e),
    };
    match iterations_per_ms(nloop, elapsed) {
        Some(rate) => Ok(rate),
        None => Err(ClockError::NotAdvancing),
    }
}

/// Times `nloop` iterations of the busy loop and returns the iterations per
/// millisecond that this measures. Only a failed clock read, or a span between
/// the two readings that gives no rate, is an error.
pub fn loops_per_msec_over(nloop: u64) -> (r: Result<u64, ClockError>)
    ensures
        r is Ok ==> exists|before: Timestamp, after: Timestamp| rate_between_of(nloop, before, after) == r,
        r is Err ==> r->Err_0 == ClockError::ReadFailed || r->Err_0 == ClockError::OutOfRange
            || exists|before: Timestamp, after: Timestamp| rate_between_of(nloop, before, after) == r,
{
    let before = match get_time() {
        Ok(t) => t,
        Err(e) => return Err(e),
    };
    let done = load(nloop);
    let after = match get_time() {
        Ok(t) => t,
        Err(e) => return Err(e),
    };
    rate_between(done, before, after)
}

/// Estimates the busy-loop iterations that take one millisecond of CPU time.
pub fn loops_per_msec() -> (r: Result<u64, ClockError>)
    ensures
        r is Ok ==> exists|before: Timestamp, after: Timestamp|
            rate_between_of(NLOOP_FOR_ESTIMATION, before, after) == r,
        r is Err ==> r->Err_0 == ClockError::ReadFailed || r->Err_0 == ClockError::OutOfRange
            || exists|before: Timestamp, after: Timestamp|
            rate_between_of(NLOOP_FOR_ESTIMATION, before, after) == r,
{
    loops_per_msec_over(NLOOP_FOR_ESTIMATION)
}

/// A calibration whose loop took longer never reports a higher rate.
pub proof fn lemma_longer_span_lower_rate(nloop: u64, shorter: u64, longer: u64)
    requires
        0 < shorter <= longer,
        rate_of(nloop, shorter) is Some,
    ensures
        rate_of(nloop, longer) is Some,
        rate_of(nloop, longer)->Some_0 <= rate_of(nloop, shorter)->Some_0,
{
    vstd::arithmetic::div_mod::lemma_div_is_ordered_by_denominator(
        nloop * NSECS_PER_MSEC,
        shorter as int,
        longer as int,
    );
}

} // verus!

//! The worker: the sampling loop run inside each spawned process, and the
//! records that it emits.
use vstd::prelude::*;
use crate::calibrate::load;
use crate::clock::{diff_nsec, get_time, ClockError, Timestamp, NSECS_PER_MSEC};
use crate::schedule::Schedule;

verus! {

/// Niceness added to a worker whose priority is lowered.
pub const LOWERED_PRIORITY_INCREMENT: i32 = 5;

/// Which workers of a run get their scheduling priority changed.
#[derive(Clone, Copy, Debug, PartialEq, Eq, Structural)]
pub enum Cohort {
    /// Every worker keeps the priority it inherits.
    Uniform,
    /// Worker 0 runs at a lowered priority; the others keep theirs.
    FirstLowered,
}

/// One progress observation of a worker.
#[derive(Clone, Copy, Debug, PartialEq, Eq, Structural)]
pub struct SampleRecord {
    pub worker_id: u32,
    pub elapsed_ms_since_start: u64,
    pub progress_percent: u8,
}

/// Percent of the work done after `completed` of `total` samples, rounded down.
pub open spec fn percent_of(completed: int, total: int) -> int {
    completed * 100 / total
}

/// Whole milliseconds from `start` to `t`.
pub open spec fn elapsed_ms_of(start: Timestamp, t: Timestamp) -> int {
    (t.nanos - start.nanos) / (NSECS_PER_MSEC as int)
}

/// The record of the `i`-th reading of `stamps`, taken by worker `worker_id`.
pub open spec fn record_at(worker_id: u32, start: Timestamp, stamps: Seq<Timestamp>, i: int) -> SampleRecord {
    SampleRecord {
        worker_id,
        elapsed_ms_since_start: elapsed_ms_of(start, stamps[i]) as u64,
        progress_percent: percent_of(i + 1, stamps.len() as int) as u8,
    }
}

/// The records of all the readings of `stamps`, in order.
pub open spec fn records_of(worker_id: u32, start: Timestamp, stamps: Seq<Timestamp>) -> Seq<SampleRecord> {
    Seq::new(stamps.len(), |i: int| record_at(worker_id, start, stamps, i))
}

/// No reading of `stamps` lies before `start`.
pub open spec fn all_after(start: Timestamp, stamps: Seq<Timestamp>) -> bool {
    forall|i: int| 0 <= i < stamps.len() ==> start.nanos <= (#[trigger] stamps[i]).nanos
}

/// The niceness increment that worker `worker_id` applies before sampling.
pub open spec fn priority_increment_of(cohort: Cohort, worker_id: u32) -> Option<i32> {
    if cohort == Cohort::FirstLowered && worker_id == 0 {
        Some(LOWERED_PRIORITY_INCREMENT)
    } else {
        None
    }
}

proof fn lemma_percent_bound(completed: int, total: int)
    requires
        0 <= completed <= total,
        0 < total,
    ensures
        0 <= percent_of(completed, total) <= 100,
{
    vstd::arithmetic::div_mod::lemma_div_is_ordered(completed * 100, total * 100, total);
    vstd::arithmetic::div_mod::lemma_div_by_multiple(100, total);
    assert(total * 100 == 100 * total) by (nonlinear_arith);
    vstd::arithmetic::div_mod::lemma_div_pos_is_pos(completed * 100, total);
}

/// The niceness increment, if any, that worker `worker_id` of `cohort` applies
/// once, right after it is spawned and before its sampling loop.
pub fn priority_increment(cohort: Cohort, worker_id: u32) -> (r: Option<i32>)
    ensures
        r == priority_increment_of(cohort, worker_id),
{
    match cohort {
        Cohort::FirstLowered => if worker_id == 0 {
            Some(LOWERED_PRIORITY_INCREMENT)
        } else {
            None
        },
        Cohort::Uniform => None,
    }
}

/// Turns the readings of one worker into its records, measured from the run's
/// common `start`; an error where a reading lies before `start`.
pub fn sample_records(worker_id: u32, start: Timestamp, stamps: &Vec<Timestamp>) -> (r: Result<
    Vec<SampleRecord>,
    ClockError,
>)
    ensures
        r is Ok <==> all_after(start, stamps@),
        r is Err ==> r->Err_0 == ClockError::WentBackwards,
        r is Ok ==> r->Ok_0@ == records_of(worker_id, start, stamps@),
{
    let n = stamps.len();
    let mut out: Vec<SampleRecord> = Vec::with_capacity(n);
    let mut i: usize = 0;
    while i < n
        invariant
            i <= n,
            n == stamps@.len(),
            out@.len() == i,
            forall|k: int| 0 <= k < i ==> start.nanos <= (#[trigger] stamps@[k]).nanos,
            forall|k: int| 0 <= k < i ==> #[trigger] out@[k] == record_at(worker_id, start, stamps@, k),
        decreases n - i,
    {
        let elapsed_ns = match diff_nsec(start, stamps[i]) {
            Ok(d) => d,
            Err(e) => return Err(e),
        };
        proof {
            lemma_percent_bound(i + 1, n as int);
        }
        let percent: u128 = (i as u128 + 1) * 100 / n as u128;
        out.push(SampleRecord {
            worker_id,
            elapsed_ms_since_start: elapsed_ns / NSECS_PER_MSEC,
            progress_percent: percent as u8,
        });
        i = i + 1;
    }
    assert(out@ =~= records_of(worker_id, start, stamps@));
    Ok(out)
}

/// Runs the sampling loop: `sample_count` times, burns the iterations of one
/// interval and then reads the clock.
pub fn collect_samples(schedule: Schedule) -> (r: Result<Vec<Timestamp>, ClockError>)
    ensures
        r is Ok ==> r->Ok_0@.len() == schedule.sample_count,
        r is Err ==> r->Err_0 == ClockError::ReadFailed || r->Err_0 == ClockError::OutOfRange,
        schedule.sample_count == 0 ==> r is Ok,
{
    let n = schedule.sample_count;
    let mut stamps: Vec<Timestamp> = Vec::with_capacity(n as usize);
    let mut i: u32 = 0;
    while i < n
        invariant
            n == schedule.sample_count,
            i <= n,
            stamps@.len() == i,
        decreases n - i,
    {
        load(schedule.iterations_per_sample);
        match get_time() {
            Ok(t) => stamps.push(t),
            Err(e) => return Err(e),
        }
        i = i + 1;
    }
    Ok(stamps)
}

/// The whole work of worker `worker_id`: samples on `schedule`, then measures
/// every reading from the run's common `start`.
pub fn run_worker(worker_id: u32, schedule: Schedule, start: Timestamp) -> (r: Result<
    Vec<SampleRecord>,
    ClockError,
>)
    ensures
        r is Ok ==> exists|stamps: Seq<Timestamp>|
            #![trigger records_of(worker_id, start, stamps)]
            stamps.len() == schedule.sample_count && all_after(start, stamps) && r->Ok_0@
                == records_of(worker_id, start, stamps),
        r is Err ==> r->Err_0 == ClockError::ReadFailed || r->Err_0 == ClockError::OutOfRange
            || r->Err_0 == ClockError::WentBackwards,
        schedule.sample_count == 0 ==> r is Ok && r->Ok_0@.len() == 0,
{
    let stamps = match collect_samples(schedule) {
        Ok(s) => s,
        Err(e) => return Err(e),
    };
    sample_records(worker_id, start, &stamps)
}

/// Within one worker, records come in order of time: where its readings do
/// not go back, neither do the elapsed times it reports.
pub proof fn lemma_elapsed_non_decreasing(worker_id: u32, start: Timestamp, stamps: Seq<Timestamp>)
    requires
        all_after(start, stamps),
        forall|i: int, j: int| 0 <= i < j < stamps.len() ==> stamps[i].nanos <= stamps[j].nanos,
    ensures
        forall|i: int, j: int|
            0 <= i < j < stamps.len() ==> (#[trigger] records_of(worker_id, start, stamps)[i]).elapsed_ms_since_start
                <= (#[trigger] records_of(worker_id, start, stamps)[j]).elapsed_ms_since_start,
{
    assert forall|i: int, j: int| 0 <= i < j < stamps.len() implies (#[trigger] records_of(
        worker_id,
        start,
        stamps,
    )[i]).elapsed_ms_since_start <= (#[trigger] records_of(
        worker_id,
        start,
        stamps,
    )[j]).elapsed_ms_since_start by {
        let a = stamps[i].nanos - start.nanos;
        let b = stamps[j].nanos - start.nanos;
        vstd::arithmetic::div_mod::lemma_div_is_ordered(a, b, NSECS_PER_MSEC as int);
        lemma_elapsed_fits(start, stamps[i]);
        lemma_elapsed_fits(start, stamps[j]);
    }
}

/// Where every sampling interval of a worker lasts at least a millisecond, the
/// elapsed times of its records strictly increase.
pub proof fn lemma_elapsed_increasing(worker_id: u32, start: Timestamp, stamps: Seq<Timestamp>)
    requires
        all_after(start, stamps),
        forall|i: int, j: int| 0 <= i < j < stamps.len() ==> stamps[i].nanos + NSECS_PER_MSEC <= stamps[j].nanos,
    ensures
        forall|i: int, j: int|
            0 <= i < j < stamps.len() ==> (#[trigger] records_of(worker_id, start, stamps)[i]).elapsed_ms_since_start
                < (#[trigger] records_of(worker_id, start, stamps)[j]).elapsed_ms_since_start,
{
    assert forall|i: int, j: int| 0 <= i < j < stamps.len() implies (#[trigger] records_of(
        worker_id,
        start,
        stamps,
    )[i]).elapsed_ms_since_start < (#[trigger] records_of(
        worker_id,
        start,
        stamps,
    )[j]).elapsed_ms_since_start by {
        let m = NSECS_PER_MSEC as int;
        let a = stamps[i].nanos - start.nanos;
        let b = stamps[j].nanos - start.nanos;
        vstd::arithmetic::div_mod::lemma_div_plus_one(a, m);
        vstd::arithmetic::div_mod::lemma_div_is_ordered(m + a, b, m);
        lemma_elapsed_fits(start, stamps[i]);
        lemma_elapsed_fits(start, stamps[j]);
    }
}

proof fn lemma_elapsed_fits(start: Timestamp, t: Timestamp)
    requires
        start.nanos <= t.nanos,
    ensures
        0 <= elapsed_ms_of(start, t) <= u64::MAX,
{
    let d = t.nanos - start.nanos;
    vstd::arithmetic::div_mod::lemma_div_is_ordered(d, u64::MAX as int, NSECS_PER_MSEC as int);
    vstd::arithmetic::div_mod::lemma_div_pos_is_pos(d, NSECS_PER_MSEC as int);
}

} // verus!

//! The schedule: how many samples each worker takes and how much work each one is.
use vstd::prelude::*;
use crate::calibrate::{loops_per_msec, rate_between_of, NLOOP_FOR_ESTIMATION};
use crate::clock::Timestamp;
use crate::clock::ClockError;
use crate::config::{plan_of, RunConfig};
use crate::decimal::u32_value;

verus! {

/// The calibrator's measurement, taken once before any worker exists.
#[derive(Clone, Copy, Debug, PartialEq, Eq, Structural)]
pub struct CalibrationResult {
    pub iterations_per_ms: u64,
}

/// What every worker of a run does: `sample_count` rounds of
/// `iterations_per_sample` busy-loop iterations, each followed by a reading.
#[derive(Clone, Copy, Debug, PartialEq, Eq, Structural)]
pub struct Schedule {
    pub sample_count: u32,
    pub iterations_per_sample: u64,
}

/// Samples per worker: whole sampling intervals in the run; a last partial
/// interval is dropped.
pub open spec fn sample_count_of(config: RunConfig) -> nat {
    (config.total_duration_ms / config.sample_resolution_ms) as nat
}

/// Busy-loop iterations per sampling interval.
pub open spec fn iterations_per_sample_of(config: RunConfig, calibration: CalibrationResult) -> nat {
    (calibration.iterations_per_ms * config.sample_resolution_ms) as nat
}

/// Derives the schedule of a run from its configuration and calibration;
/// `None` exactly where the iterations per sample overflow a `u64`.
pub fn plan_schedule(config: &RunConfig, calibration: CalibrationResult) -> (r: Option<Schedule>)
    requires
        config.valid(),
    ensures
        r is Some <==> iterations_per_sample_of(*config, calibration) <= u64::MAX,
        r is Some ==> r->Some_0.sample_count == sample_count_of(*config),
        r is Some ==> r->Some_0.iterations_per_sample == iterations_per_sample_of(*config, calibration),
{
    match calibration.iterations_per_ms.checked_mul(config.sample_resolution_ms as u64) {
        None => None,
        Some(iterations) => Some(Schedule {
            sample_count: config.total_duration_ms / config.sample_resolution_ms,
            iterations_per_sample: iterations,
        }),
    }
}

/// The samples of a valid run cover no more than its duration: their count is
/// the duration divided by the resolution, rounded down, and they fill the
/// duration exactly when the resolution divides it.
pub proof fn lemma_samples_fit_duration(config: RunConfig)
    requires
        config.valid(),
    ensures
        sample_count_of(config) == config.total_duration_ms / config.sample_resolution_ms,
        sample_count_of(config) * config.sample_resolution_ms <= config.total_duration_ms,
        config.total_duration_ms % config.sample_resolution_ms == 0
            ==> sample_count_of(config) * config.sample_resolution_ms == config.total_duration_ms,
{
    let t = config.total_duration_ms as int;
    let r = config.sample_resolution_ms as int;
    vstd::arithmetic::div_mod::lemma_fundamental_div_mod(t, r);
    vstd::arithmetic::div_mod::lemma_mod_bound(t, r);
    assert((t / r) * r == r * (t / r)) by (nonlinear_arith);
}

/// Why no schedule could be set up.
#[derive(Clone, Copy, Debug, PartialEq, Eq, Structural)]
pub enum SetupError {
    /// Calibration could not time its loop.
    Clock(ClockError),
    /// The iterations of one sampling interval overflow a `u64`.
    TooManyIterations,
}

/// Calibrates once, then derives the schedule of the run from the measured rate.
pub fn prepare_schedule(config: &RunConfig) -> (r: Result<Schedule, SetupError>)
    requires
        config.valid(),
    ensures
        r is Ok ==> r->Ok_0.sample_count == sample_count_of(*config),
        r is Ok ==> exists|calibration: CalibrationResult, before: Timestamp, after: Timestamp|
            rate_between_of(NLOOP_FOR_ESTIMATION, before, after) == Ok::<u64, ClockError>(
                calibration.iterations_per_ms,
            ) && r->Ok_0.iterations_per_sample == iterations_per_sample_of(*config, calibration),
{
    let calibration = match loops_per_msec() {
        Ok(rate) => CalibrationResult { iterations_per_ms: rate },
        Err(e) => return Err(SetupError::Clock(e)),
    };
    match plan_schedule(config, calibration) {
        Some(s) => Ok(s),
        None => Err(SetupError::TooManyIterations),
    }
}

/// A duration that is not a whole number of sampling intervals does not
/// refuse the run: it goes ahead on the truncated sample count, whose
/// intervals then fall strictly short of the duration.
pub proof fn lemma_non_multiple_duration_runs(args: Seq<Seq<u8>>, n: u32, total: u32, resolution: u32)
    requires
        args.len() >= 3,
        u32_value(args[0]) == Some(n),
        u32_value(args[1]) == Some(total),
        u32_value(args[2]) == Some(resolution),
        n >= 1,
        total >= 1,
        resolution >= 1,
        total % resolution != 0,
    ensures
        plan_of(args) == Ok::<RunConfig, crate::config::ConfigError>(
            RunConfig { process_count: n, total_duration_ms: total, sample_resolution_ms: resolution },
        ),
        sample_count_of(plan_of(args)->Ok_0) == total / resolution,
        sample_count_of(plan_of(args)->Ok_0) * resolution < total,
{
    let config = plan_of(args)->Ok_0;
    lemma_samples_fit_duration(config);
    let t = total as int;
    let r = resolution as int;
    vstd::arithmetic::div_mod::lemma_fundamental_div_mod(t, r);
    assert((t / r) * r == r * (t / r)) by (nonlinear_arith);
}

} // verus!

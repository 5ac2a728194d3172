//! The run's parameters: validating the command line into a `RunConfig`.
use vstd::prelude::*;
use vstd::string::StringSliceAdditionalSpecFns;
use vstd::utf8::encode_utf8;
use crate::decimal::{parse_u32, u32_value};

verus! {

/// Number of workers in the cohort whose first worker runs at a lowered priority.
pub const PRIORITY_COHORT_SIZE: u32 = 2;

/// The three positional parameters of a run.
#[derive(Clone, Copy, Debug, PartialEq, Eq, Structural)]
pub enum Param {
    ProcessCount,
    TotalDuration,
    SampleResolution,
}

/// Why the command line does not describe a run.
#[derive(Clone, Copy, Debug, PartialEq, Eq, Structural)]
pub enum ConfigError {
    /// Fewer positional arguments than the run needs.
    Usage,
    /// The argument is no unsigned decimal number that fits in a `u32`.
    NotANumber(Param),
    /// The argument is zero.
    TooSmall(Param),
}

/// A validated run: every field is at least 1.
#[derive(Clone, Copy, Debug, PartialEq, Eq, Structural)]
pub struct RunConfig {
    pub process_count: u32,
    pub total_duration_ms: u32,
    pub sample_resolution_ms: u32,
}

impl RunConfig {
    pub open spec fn valid(&self) -> bool {
        &&& self.process_count >= 1
        &&& self.total_duration_ms >= 1
        &&& self.sample_resolution_ms >= 1
    }

    /// Whether the total duration is a whole number of sampling intervals.
    /// A run whose duration is not still goes ahead, on the truncated count.
    pub fn is_exact(&self) -> (r: bool)
        requires
            self.valid(),
        ensures
            r == (self.total_duration_ms % self.sample_resolution_ms == 0),
    {
        self.total_duration_ms % self.sample_resolution_ms == 0
    }
}

/// What one positional argument yields: its value, or why it is refused.
pub open spec fn param_value(arg: Seq<u8>, param: Param) -> Result<u32, ConfigError> {
    match u32_value(arg) {
        None => Err(ConfigError::NotANumber(param)),
        Some(v) => if v < 1 {
            Err(ConfigError::TooSmall(param))
        } else {
            Ok(v)
        },
    }
}

/// The UTF-8 bytes of each argument.
pub open spec fn arg_bytes(args: Seq<String>) -> Seq<Seq<u8>> {
    args.map_values(|a: String| encode_utf8(a@))
}

/// The run that `args` describes, with the number of processes given; the
/// arguments are checked left to right and the first refusal is reported.
pub open spec fn config_with(
    process_count: Result<u32, ConfigError>,
    total: Seq<u8>,
    resolution: Seq<u8>,
) -> Result<RunConfig, ConfigError> {
    match process_count {
        Err(e) => Err(e),
        Ok(n) => match param_value(total, Param::TotalDuration) {
            Err(e) => Err(e),
            Ok(t) => match param_value(resolution, Param::SampleResolution) {
                Err(e) => Err(e),
                Ok(r) => Ok(RunConfig { process_count: n, total_duration_ms: t, sample_resolution_ms: r }),
            },
        },
    }
}

/// The run described by `<process_count> <total_ms> <resolution_ms>`; further
/// arguments are ignored.
pub open spec fn plan_of(args: Seq<Seq<u8>>) -> Result<RunConfig, ConfigError> {
    if args.len() < 3 {
        Err(ConfigError::Usage)
    } else {
        config_with(param_value(args[0], Param::ProcessCount), args[1], args[2])
    }
}

/// The run described by `<total_ms> <resolution_ms>` for the two-worker cohort.
pub open spec fn plan_cohort_of(args: Seq<Seq<u8>>) -> Result<RunConfig, ConfigError> {
    if args.len() < 2 {
        Err(ConfigError::Usage)
    } else {
        config_with(Ok(PRIORITY_COHORT_SIZE), args[0], args[1])
    }
}

/// Reads one positional argument: a number of at least 1.
pub fn arg_validation(arg: &str, param: Param) -> (r: Result<u32, ConfigError>)
    ensures
        r == param_value(arg.spec_bytes(), param),
{
    match parse_u32(arg) {
        None => Err(ConfigError::NotANumber(param)),
        Some(v) => if v < 1 {
            Err(ConfigError::TooSmall(param))
        } else {
            Ok(v)
        },
    }
}

fn config_from(
    process_count: Result<u32, ConfigError>,
    total: &String,
    resolution: &String,
) -> (r: Result<RunConfig, ConfigError>)
    requires
        process_count is Ok ==> process_count->Ok_0 >= 1,
    ensures
        r == config_with(process_count, encode_utf8(total@), encode_utf8(resolution@)),
        r is Ok ==> r->Ok_0.valid(),
        r is Ok ==> r->Ok_0.process_count == process_count->Ok_0,
{
    let n = match process_count {
        Err(e) => return Err(e),
        Ok(n) => n,
    };
    let t = match arg_validation(total.as_str(), Param::TotalDuration) {
        Err(e) => return Err(e),
        Ok(t) => t,
    };
    let r = match arg_validation(resolution.as_str(), Param::SampleResolution) {
        Err(e) => return Err(e),
        Ok(r) => r,
    };
    Ok(RunConfig { process_count: n, total_duration_ms: t, sample_resolution_ms: r })
}

/// Validates `<process_count> <total_ms> <resolution_ms>` (the arguments after
/// the program's name) into a run.
pub fn plan(args: &Vec<String>) -> (r: Result<RunConfig, ConfigError>)
    ensures
        r == plan_of(arg_bytes(args@)),
        r is Ok ==> r->Ok_0.valid(),
{
    if args.len() < 3 {
        return Err(ConfigError::Usage);
    }
    let n = arg_validation(args[0].as_str(), Param::ProcessCount);
    config_from(n, &args[1], &args[2])
}

/// Validates `<total_ms> <resolution_ms>` into a run of the two-worker cohort
/// whose first worker runs at a lowered priority.
pub fn plan_cohort(args: &Vec<String>) -> (r: Result<RunConfig, ConfigError>)
    ensures
        r == plan_cohort_of(arg_bytes(args@)),
        r is Ok ==> r->Ok_0.valid() && r->Ok_0.process_count == PRIORITY_COHORT_SIZE,
{
    if args.len() < 2 {
        return Err(ConfigError::Usage);
    }
    config_from(Ok(PRIORITY_COHORT_SIZE), &args[0], &args[1])
}

/// A zero among the three parameters refuses the run, so no worker is ever
/// spawned for it: only a valid `RunConfig` starts a coordinator.
pub proof fn lemma_zero_parameter_refused(args: Seq<Seq<u8>>)
    requires
        args.len() >= 3,
        u32_value(args[0]) == Some(0u32) || u32_value(args[1]) == Some(0u32) || u32_value(args[2])
            == Some(0u32),
    ensures
        plan_of(args) is Err,
{
}

/// Likewise for the two-worker cohort: a zero duration or resolution refuses
/// the run.
pub proof fn lemma_zero_parameter_refused_cohort(args: Seq<Seq<u8>>)
    requires
        args.len() >= 2,
        u32_value(args[0]) == Some(0u32) || u32_value(args[1]) == Some(0u32),
    ensures
        plan_cohort_of(args) is Err,
{
}

} // verus!

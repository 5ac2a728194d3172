use sched_profiler::config::{arg_validation, plan, plan_cohort, ConfigError, Param, RunConfig};
use sched_profiler::decimal::parse_u32;
use sched_profiler::schedule::{plan_schedule, CalibrationResult, Schedule};

fn args(v: &[&str]) -> Vec<String> {
    v.iter().map(|s| s.to_string()).collect()
}

#[test]
fn parse_accepts_plain_and_plus_prefixed_numbers() {
    assert_eq!(parse_u32("42"), Some(42));
    assert_eq!(parse_u32("+7"), Some(7));
    assert_eq!(parse_u32("0"), Some(0));
    assert_eq!(parse_u32("007"), Some(7));
    assert_eq!(parse_u32("4294967295"), Some(u32::MAX));
}

#[test]
fn parse_refuses_non_numbers_and_overflow() {
    assert_eq!(parse_u32(""), None);
    assert_eq!(parse_u32("+"), None);
    assert_eq!(parse_u32("-1"), None);
    assert_eq!(parse_u32("12a"), None);
    assert_eq!(parse_u32(" 1"), None);
    assert_eq!(parse_u32("4294967296"), None);
    assert_eq!(parse_u32("99999999999999999999x"), None);
}

#[test]
fn arg_validation_reports_each_error() {
    assert_eq!(arg_validation("10", Param::TotalDuration), Ok(10));
    assert_eq!(arg_validation("0", Param::TotalDuration), Err(ConfigError::TooSmall(Param::TotalDuration)));
    assert_eq!(arg_validation("ten", Param::SampleResolution), Err(ConfigError::NotANumber(Param::SampleResolution)));
}

#[test]
fn plan_accepts_a_valid_command_line() {
    let c = plan(&args(&["2", "100", "10"])).unwrap();
    assert_eq!(c, RunConfig { process_count: 2, total_duration_ms: 100, sample_resolution_ms: 10 });
    assert!(c.is_exact());
}

#[test]
fn plan_needs_three_arguments() {
    assert_eq!(plan(&args(&["2", "100"])), Err(ConfigError::Usage));
    assert_eq!(plan(&args(&[])), Err(ConfigError::Usage));
}

#[test]
fn plan_refuses_zero_process_count() {
    assert_eq!(plan(&args(&["0", "100", "10"])), Err(ConfigError::TooSmall(Param::ProcessCount)));
}

#[test]
fn plan_refuses_any_zero_parameter() {
    assert_eq!(plan(&args(&["1", "0", "10"])), Err(ConfigError::TooSmall(Param::TotalDuration)));
    assert_eq!(plan(&args(&["1", "100", "0"])), Err(ConfigError::TooSmall(Param::SampleResolution)));
}

#[test]
fn plan_reports_the_first_bad_argument() {
    assert_eq!(plan(&args(&["x", "0", "10"])), Err(ConfigError::NotANumber(Param::ProcessCount)));
    assert_eq!(plan(&args(&["3", "abc", "0"])), Err(ConfigError::NotANumber(Param::TotalDuration)));
}

#[test]
fn plan_keeps_a_non_multiple_duration() {
    let c = plan(&args(&["1", "105", "10"])).unwrap();
    assert!(!c.is_exact());
    let s = plan_schedule(&c, CalibrationResult { iterations_per_ms: 3 }).unwrap();
    assert_eq!(s, Schedule { sample_count: 10, iterations_per_sample: 30 });
}

#[test]
fn plan_cohort_fixes_two_workers() {
    let c = plan_cohort(&args(&["100", "10"])).unwrap();
    assert_eq!(c, RunConfig { process_count: 2, total_duration_ms: 100, sample_resolution_ms: 10 });
    assert_eq!(plan_cohort(&args(&["100"])), Err(ConfigError::Usage));
    assert_eq!(plan_cohort(&args(&["100", "0"])), Err(ConfigError::TooSmall(Param::SampleResolution)));
}

#[test]
fn schedule_divides_duration_by_resolution() {
    let c = RunConfig { process_count: 2, total_duration_ms: 100, sample_resolution_ms: 10 };
    let s = plan_schedule(&c, CalibrationResult { iterations_per_ms: 1000 }).unwrap();
    assert_eq!(s.sample_count, 10);
    assert_eq!(s.iterations_per_sample, 10_000);
    assert!(s.sample_count * c.sample_resolution_ms <= c.total_duration_ms);
}

#[test]
fn schedule_with_resolution_above_duration_has_no_samples() {
    let c = RunConfig { process_count: 1, total_duration_ms: 5, sample_resolution_ms: 10 };
    let s = plan_schedule(&c, CalibrationResult { iterations_per_ms: 1 }).unwrap();
    assert_eq!(s.sample_count, 0);
}

#[test]
fn schedule_refuses_overflowing_iterations() {
    let c = RunConfig { process_count: 1, total_duration_ms: 100, sample_resolution_ms: 10 };
    assert_eq!(plan_schedule(&c, CalibrationResult { iterations_per_ms: u64::MAX / 2 }), None);
}

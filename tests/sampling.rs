use sched_profiler::calibrate::{iterations_per_ms, load, loops_per_msec_over, rate_between};
use sched_profiler::clock::{diff_nsec, get_time, ClockError, Timestamp};
use sched_profiler::output::records_text;
use sched_profiler::schedule::Schedule;
use sched_profiler::worker::{collect_samples, priority_increment, run_worker, sample_records, Cohort, SampleRecord};

fn ts(nanos: u64) -> Timestamp {
    Timestamp { nanos }
}

#[test]
fn load_runs_every_iteration() {
    assert_eq!(load(0), 0);
    assert_eq!(load(12_345), 12_345);
}

#[test]
fn rate_is_iterations_per_millisecond() {
    assert_eq!(iterations_per_ms(1_000_000_000, 500_000_000), Some(2_000_000));
    assert_eq!(iterations_per_ms(3, 2_000_000), Some(1));
    assert_eq!(iterations_per_ms(10, 0), None);
    assert_eq!(iterations_per_ms(u64::MAX, 1), None);
}

#[test]
fn timestamps_from_timespec_fields() {
    assert_eq!(Timestamp::from_parts(2, 500), Some(ts(2_000_000_500)));
    assert_eq!(Timestamp::from_parts(-1, 0), None);
    assert_eq!(Timestamp::from_parts(0, 1_000_000_000), None);
    assert_eq!(Timestamp::from_parts(i64::MAX, 0), None);
}

#[test]
fn diff_nsec_measures_forward_only() {
    assert_eq!(diff_nsec(ts(10), ts(25)), Ok(15));
    assert_eq!(diff_nsec(ts(25), ts(10)), Err(ClockError::WentBackwards));
}

#[test]
fn clock_readings_do_not_go_back() {
    let a = get_time().unwrap();
    let b = get_time().unwrap();
    assert!(a.nanos <= b.nanos);
}

#[test]
fn two_workers_emit_ten_records_each() {
    for id in 0..2u32 {
        let start = ts(1_000);
        let stamps: Vec<Timestamp> = (1..=10u64).map(|k| ts(1_000 + k * 10_000_000)).collect();
        let recs = sample_records(id, start, &stamps).unwrap();
        assert_eq!(recs.len(), 10);
        let percents: Vec<u8> = recs.iter().map(|r| r.progress_percent).collect();
        assert_eq!(percents, vec![10, 20, 30, 40, 50, 60, 70, 80, 90, 100]);
        let elapsed: Vec<u64> = recs.iter().map(|r| r.elapsed_ms_since_start).collect();
        assert_eq!(elapsed, vec![10, 20, 30, 40, 50, 60, 70, 80, 90, 100]);
        assert!(recs.iter().all(|r| r.worker_id == id));
    }
}

#[test]
fn elapsed_times_strictly_increase_when_intervals_last_a_millisecond() {
    let start = ts(0);
    let stamps = vec![ts(1_500_000), ts(2_500_000), ts(3_600_000), ts(9_000_000)];
    let recs = sample_records(7, start, &stamps).unwrap();
    let elapsed: Vec<u64> = recs.iter().map(|r| r.elapsed_ms_since_start).collect();
    assert_eq!(elapsed, vec![1, 2, 3, 9]);
    assert!(elapsed.windows(2).all(|w| w[0] < w[1]));
}

#[test]
fn percent_rounds_down() {
    let stamps = vec![ts(1), ts(2), ts(3)];
    let recs = sample_records(0, ts(0), &stamps).unwrap();
    let percents: Vec<u8> = recs.iter().map(|r| r.progress_percent).collect();
    assert_eq!(percents, vec![33, 66, 100]);
}

#[test]
fn records_refuse_a_reading_before_start() {
    let stamps = vec![ts(5_000_000), ts(1)];
    assert_eq!(sample_records(0, ts(2), &stamps), Err(ClockError::WentBackwards));
}

#[test]
fn no_samples_no_records() {
    assert_eq!(sample_records(0, ts(0), &Vec::new()), Ok(Vec::new()));
}

#[test]
fn worker_runs_its_schedule() {
    let start = get_time().unwrap();
    let recs = run_worker(3, Schedule { sample_count: 4, iterations_per_sample: 1_000 }, start).unwrap();
    assert_eq!(recs.len(), 4);
    let percents: Vec<u8> = recs.iter().map(|r| r.progress_percent).collect();
    assert_eq!(percents, vec![25, 50, 75, 100]);
    assert!(recs.iter().all(|r| r.worker_id == 3));
    assert!(recs.windows(2).all(|w| w[0].elapsed_ms_since_start <= w[1].elapsed_ms_since_start));
}

#[test]
fn only_the_first_worker_is_lowered() {
    assert_eq!(priority_increment(Cohort::FirstLowered, 0), Some(5));
    assert_eq!(priority_increment(Cohort::FirstLowered, 1), None);
    assert_eq!(priority_increment(Cohort::Uniform, 0), None);
}

#[test]
fn records_are_written_as_tab_separated_lines() {
    let recs = vec![
        SampleRecord { worker_id: 0, elapsed_ms_since_start: 10, progress_percent: 50 },
        SampleRecord { worker_id: 12, elapsed_ms_since_start: 0, progress_percent: 100 },
    ];
    assert_eq!(records_text(&recs), b"0\t10\t50\n12\t0\t100\n".to_vec());
    assert_eq!(records_text(&Vec::new()), Vec::<u8>::new());
}

#[test]
fn calibration_is_stable_on_an_idle_host() {
    let a = loops_per_msec_over(50_000_000).unwrap();
    let b = loops_per_msec_over(50_000_000).unwrap();
    assert!(a > 0 && b > 0);
    let (lo, hi) = if a < b { (a, b) } else { (b, a) };
    assert!(hi <= lo * 4, "rates {} and {} differ by more than fourfold", a, b);
}

#[test]
fn rate_between_readings_one_second_apart() {
    assert_eq!(rate_between(1_000_000_000, ts(0), ts(1_000_000_000)), Ok(1_000_000));
    assert_eq!(rate_between(1_000_000_000, ts(3_000), ts(500_003_000)), Ok(2_000_000));
}

#[test]
fn rate_between_refuses_backwards_and_empty_spans() {
    assert_eq!(rate_between(10, ts(9), ts(5)), Err(ClockError::WentBackwards));
    assert_eq!(rate_between(10, ts(5), ts(5)), Err(ClockError::NotAdvancing));
}

#[test]
fn longer_span_gives_lower_rate() {
    let fast = rate_between(1_000_000, ts(0), ts(1_000)).unwrap();
    let slow = rate_between(1_000_000, ts(0), ts(4_000)).unwrap();
    assert!(slow <= fast);
    assert_eq!((fast, slow), (1_000_000_000, 250_000_000));
}

#[test]
fn worker_without_samples_completes_with_no_records() {
    let schedule = Schedule { sample_count: 0, iterations_per_sample: 1_000 };
    assert_eq!(collect_samples(schedule), Ok(Vec::new()));
    assert_eq!(run_worker(0, schedule, ts(0)), Ok(Vec::new()));
}

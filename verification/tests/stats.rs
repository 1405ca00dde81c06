use fdp_sui_bench::stats::{BenchStats, Tally};

#[test]
fn report_of_a_fresh_run_counts_nothing() {
    let stats = BenchStats::new();
    let line = stats.report_at(0);
    assert_eq!(
        line,
        "Elapsed: 0.0s | TX: 0 submitted, 0 success, 0 failed | TPS: 0.0 | Objects: 0 created, 0 updated | Ops/s: 0.0"
    );
}

#[test]
fn new_stats_start_at_zero() {
    let stats = BenchStats::new();
    assert_eq!(
        stats.snapshot(),
        Tally { submitted: 0, succeeded: 0, failed: 0, created: 0, updated: 0 }
    );
}

#[test]
fn record_success_counts_the_batch_and_its_effects() {
    let mut stats = BenchStats::new();
    stats.record_success(50, 0);
    stats.record_success(0, 7);
    assert_eq!(
        stats.snapshot(),
        Tally { submitted: 2, succeeded: 2, failed: 0, created: 50, updated: 7 }
    );
}

#[test]
fn record_failure_counts_the_batch_only() {
    let mut stats = BenchStats::new();
    stats.record_success(1, 2);
    stats.record_failure();
    assert_eq!(
        stats.snapshot(),
        Tally { submitted: 2, succeeded: 1, failed: 1, created: 1, updated: 2 }
    );
}

#[test]
fn submitted_covers_outcomes_and_never_falls() {
    let mut stats = BenchStats::new();
    let mut last = 0;
    for step in 0..1000u64 {
        if step % 3 == 0 {
            stats.record_failure();
        } else {
            stats.record_success(step % 5, step % 7);
        }
        let t = stats.snapshot();
        assert!(t.submitted >= t.succeeded + t.failed);
        assert!(t.submitted >= last);
        assert_eq!(t.submitted, step + 1);
        last = t.submitted;
    }
}

#[test]
fn can_record_tells_whether_the_counters_have_room() {
    let mut stats = BenchStats::new();
    assert!(stats.can_record(u64::MAX, u64::MAX));
    stats.record_success(1, 0);
    assert!(!stats.can_record(u64::MAX, 0));
    assert!(stats.can_record(u64::MAX - 1, u64::MAX));
}

#[test]
fn report_at_renders_rates_rounded_to_one_decimal() {
    let mut stats = BenchStats::new();
    for _ in 0..7 {
        stats.record_success(3, 0);
    }
    stats.record_success(0, 4);
    stats.record_failure();
    stats.record_failure();
    assert_eq!(
        stats.report_at(3000),
        "Elapsed: 3.0s | TX: 10 submitted, 8 success, 2 failed | TPS: 2.7 | Objects: 21 created, 4 updated | Ops/s: 8.3"
    );
    assert_eq!(
        stats.report_at(12_345),
        "Elapsed: 12.3s | TX: 10 submitted, 8 success, 2 failed | TPS: 0.6 | Objects: 21 created, 4 updated | Ops/s: 2.0"
    );
    assert_eq!(
        stats.report_at(12_350),
        "Elapsed: 12.4s | TX: 10 submitted, 8 success, 2 failed | TPS: 0.6 | Objects: 21 created, 4 updated | Ops/s: 2.0"
    );
    assert_eq!(
        stats.report_at(16_000),
        "Elapsed: 16.0s | TX: 10 submitted, 8 success, 2 failed | TPS: 0.5 | Objects: 21 created, 4 updated | Ops/s: 1.6"
    );
    assert_eq!(
        stats.report_at(1),
        "Elapsed: 0.0s | TX: 10 submitted, 8 success, 2 failed | TPS: 8000.0 | Objects: 21 created, 4 updated | Ops/s: 25000.0"
    );
}

#[test]
fn report_at_takes_the_longest_time_and_the_largest_counts() {
    let mut stats = BenchStats::new();
    stats.record_success(u64::MAX, u64::MAX);
    assert_eq!(
        stats.report_at(u128::MAX),
        "Elapsed: 340282366920938463463374607431768211.5s | TX: 1 submitted, 1 success, 0 failed | TPS: 0.0 | Objects: 18446744073709551615 created, 18446744073709551615 updated | Ops/s: 0.0"
    );
    assert_eq!(
        stats.report_at(1000),
        "Elapsed: 1.0s | TX: 1 submitted, 1 success, 0 failed | TPS: 1.0 | Objects: 18446744073709551615 created, 18446744073709551615 updated | Ops/s: 36893488147419103230.0"
    );
}

#[test]
fn report_reads_the_clock() {
    let mut stats = BenchStats::new();
    stats.record_success(2, 0);
    let line = stats.report();
    assert!(line.starts_with("Elapsed: "));
    assert!(line.contains("s | TX: 1 submitted, 1 success, 0 failed | TPS: "));
    assert!(line.contains(" | Objects: 2 created, 0 updated | Ops/s: "));
    let elapsed = stats.elapsed_ms();
    assert!(elapsed < 60_000);
}

#[test]
fn recording_leaves_the_start_of_the_run_where_it_was() {
    let mut stats = BenchStats::new();
    let begun = std::time::Instant::now();
    while begun.elapsed() < std::time::Duration::from_millis(30) {}
    let before = stats.elapsed_ms();
    stats.record_success(1, 1);
    stats.record_failure();
    let after = stats.elapsed_ms();
    assert!(before >= 30);
    assert!(after >= before);
}

#[test]
fn every_recorded_batch_adds_one_submission_and_one_outcome() {
    let mut stats = BenchStats::new();
    for step in 0..200u64 {
        let before = stats.snapshot();
        if step % 4 == 1 {
            stats.record_failure();
        } else {
            stats.record_success(step, 2 * step);
        }
        let after = stats.snapshot();
        assert_eq!(after.submitted, before.submitted + 1);
        assert_eq!(after.succeeded + after.failed, before.succeeded + before.failed + 1);
        assert!(after.succeeded >= before.succeeded && after.failed >= before.failed);
        assert!(after.created >= before.created && after.updated >= before.updated);
        assert_eq!(after.submitted, after.succeeded + after.failed);
    }
}

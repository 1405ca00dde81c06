use fdp_sui_bench::backoff::{BackoffPolicy, FailureBackoff};

#[test]
fn standard_policy_is_500ms_up_to_5s_from_the_tenth_failure() {
    assert_eq!(
        BackoffPolicy::standard(),
        BackoffPolicy { base_ms: 500, max_ms: 5000, threshold: 10 }
    );
}

#[test]
fn no_pause_before_the_threshold() {
    let policy = BackoffPolicy::standard();
    for count in 0..10 {
        assert_eq!(policy.delay_ms(count), 0);
    }
}

#[test]
fn from_the_threshold_the_pause_is_min_of_base_times_count_and_max() {
    let policy = BackoffPolicy::standard();
    for count in 10..200u32 {
        assert_eq!(policy.delay_ms(count), (500 * count as u64).min(5000));
    }
    assert_eq!(policy.delay_ms(10), 5000);
    assert_eq!(policy.delay_ms(u32::MAX), 5000);
}

#[test]
fn the_pause_grows_with_the_count_until_the_cap() {
    let policy = BackoffPolicy { base_ms: 500, max_ms: 20_000, threshold: 10 };
    assert_eq!(policy.delay_ms(9), 0);
    assert_eq!(policy.delay_ms(10), 5000);
    assert_eq!(policy.delay_ms(11), 5500);
    assert_eq!(policy.delay_ms(39), 19_500);
    assert_eq!(policy.delay_ms(40), 20_000);
    assert_eq!(policy.delay_ms(41), 20_000);
    let mut last = 0;
    for count in 0..100 {
        let pause = policy.delay_ms(count);
        assert!(pause >= last);
        last = pause;
    }
}

#[test]
fn the_largest_policy_does_not_overflow() {
    let policy = BackoffPolicy { base_ms: u64::MAX, max_ms: u64::MAX, threshold: 0 };
    assert_eq!(policy.delay_ms(0), 0);
    assert_eq!(policy.delay_ms(1), u64::MAX);
    assert_eq!(policy.delay_ms(u32::MAX), u64::MAX);
}

#[test]
fn failures_count_up_and_a_success_resets() {
    let mut backoff = FailureBackoff::new(BackoffPolicy::standard());
    assert_eq!(backoff.consecutive_failures(), 0);
    for n in 1..=9 {
        assert_eq!(backoff.on_failure(), 0);
        assert_eq!(backoff.consecutive_failures(), n);
    }
    assert_eq!(backoff.on_failure(), 5000);
    assert_eq!(backoff.on_failure(), 5000);
    assert_eq!(backoff.consecutive_failures(), 11);
    backoff.on_success();
    assert_eq!(backoff.consecutive_failures(), 0);
    assert_eq!(backoff.on_failure(), 0);
    assert!(backoff.can_count());
}

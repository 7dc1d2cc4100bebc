use cursor_watch::retry::{RetryDecision, RetryPolicy};

#[test]
fn transport_policy_is_three_attempts_half_a_second_apart() {
    let p = RetryPolicy::transport();
    assert_eq!(p.max_attempts, 3);
    assert_eq!(p.delay_ms, 500);
}

#[test]
fn settings_save_policy_is_two_attempts() {
    let p = RetryPolicy::settings_save();
    assert_eq!(p.max_attempts, 2);
}

#[test]
fn failures_are_retried_until_the_attempts_run_out() {
    let p = RetryPolicy::transport();
    assert_eq!(p.after_failure(1), RetryDecision::RetryAfterMs(500));
    assert_eq!(p.after_failure(2), RetryDecision::RetryAfterMs(500));
    assert_eq!(p.after_failure(3), RetryDecision::GiveUp);
}

#[test]
fn success_on_the_third_attempt_succeeds() {
    // Two transport failures, then a success on the last allowed attempt.
    let p = RetryPolicy::transport();
    let outcomes = vec![false, false, true];
    assert_eq!(p.first_successful_attempt(&outcomes), Some(2));
}

#[test]
fn three_consecutive_failures_exhaust_the_retry() {
    let p = RetryPolicy::transport();
    let outcomes = vec![false, false, false];
    assert_eq!(p.first_successful_attempt(&outcomes), None);
}

#[test]
fn a_success_past_the_allowed_attempts_does_not_count() {
    let p = RetryPolicy::transport();
    let outcomes = vec![false, false, false, true];
    assert_eq!(p.first_successful_attempt(&outcomes), None);
}

#[test]
fn an_immediate_success_is_the_first_attempt() {
    let p = RetryPolicy::transport();
    let outcomes = vec![true, false];
    assert_eq!(p.first_successful_attempt(&outcomes), Some(0));
}

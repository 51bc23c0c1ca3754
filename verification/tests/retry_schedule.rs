use near_fetch::retry::{send_retry_schedule, Backoff, RetryPlan, RetryRun, RetryStep, StrategyStep};
use std::time::Duration;

fn all_delays(mut b: Backoff) -> Vec<u64> {
    let mut out = Vec::new();
    while let Some(d) = b.next_delay() {
        out.push(d);
    }
    out
}

#[test]
fn send_retries_wait_5_25_125_625_ms() {
    assert_eq!(all_delays(send_retry_schedule()), vec![5, 25, 125, 625]);
}

#[test]
fn exponential_base_10() {
    assert_eq!(all_delays(Backoff::new(10, 3)), vec![10, 100, 1000]);
}

#[test]
fn exponential_saturates_at_u64_max() {
    assert_eq!(
        all_delays(Backoff::new(u64::MAX - 1, 3)),
        vec![u64::MAX - 1, u64::MAX, u64::MAX]
    );
}

#[test]
fn zero_retries_yield_no_delay() {
    let mut b = Backoff::new(5, 0);
    assert_eq!(b.next_delay(), None);
    assert_eq!(b.taken, 0);
}

#[test]
fn success_finishes_at_once() {
    let mut run = RetryRun::new(Some(RetryPlan::Exponential(Backoff::new(5, 4))));
    assert_eq!(run.after_attempt(true), RetryStep::Finish);
}

#[test]
fn without_strategy_one_attempt() {
    let mut run = RetryRun::new(None);
    assert_eq!(run.after_attempt(false), RetryStep::Finish);
}

#[test]
fn failing_exponential_run_is_retried_max_retries_times() {
    let mut run = RetryRun::new(Some(RetryPlan::Exponential(Backoff::new(2, 3))));
    assert_eq!(run.after_attempt(false), RetryStep::Retry { delay_millis: 2, jitter: true });
    assert_eq!(run.after_attempt(false), RetryStep::Retry { delay_millis: 4, jitter: true });
    assert_eq!(run.after_attempt(false), RetryStep::Retry { delay_millis: 8, jitter: true });
    assert_eq!(run.after_attempt(false), RetryStep::Finish);
    assert_eq!(run.after_attempt(false), RetryStep::Finish);
}

#[test]
fn custom_strategy_is_asked_after_each_failure() {
    let mut run = RetryRun::new(Some(RetryPlan::Custom));
    let mut strategy = vec![Duration::from_micros(1500), Duration::from_secs(2)].into_iter();
    assert_eq!(run.after_attempt(false), RetryStep::AskStrategy);
    assert!(matches!(RetryRun::after_strategy_delay(strategy.next()), StrategyStep::Sleep(d) if d == Duration::from_micros(1500)));
    assert_eq!(run.after_attempt(true), RetryStep::Finish);
    assert_eq!(run.after_attempt(false), RetryStep::AskStrategy);
    assert!(matches!(RetryRun::after_strategy_delay(strategy.next()), StrategyStep::Sleep(d) if d == Duration::from_secs(2)));
    assert_eq!(run.after_attempt(false), RetryStep::AskStrategy);
    assert!(matches!(RetryRun::after_strategy_delay(strategy.next()), StrategyStep::Finish));
}

#[test]
fn infinite_custom_strategy_is_drawn_lazily() {
    let mut run = RetryRun::new(Some(RetryPlan::Custom));
    let mut strategy = std::iter::repeat(Duration::from_millis(7));
    for _ in 0..3 {
        assert_eq!(run.after_attempt(false), RetryStep::AskStrategy);
        assert!(matches!(RetryRun::after_strategy_delay(strategy.next()), StrategyStep::Sleep(d) if d == Duration::from_millis(7)));
    }
    assert_eq!(run.after_attempt(true), RetryStep::Finish);
}

#[test]
fn delays_never_decrease() {
    assert_eq!(all_delays(Backoff::new(1, 3)), vec![1, 1, 1]);
    assert_eq!(all_delays(Backoff::new(0, 2)), vec![0, 0]);
    let d = all_delays(Backoff::new(3, 50));
    assert!(d.windows(2).all(|w| w[0] <= w[1]));
    assert_eq!(d[0], 3);
    assert_eq!(d[39], 3u64.pow(40));
    assert_eq!(d[40], u64::MAX);
    assert_eq!(d[49], u64::MAX);
}

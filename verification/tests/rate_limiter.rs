use changqiao::openapi::rate_limiter::{is_rate_limit_error, MAX_RETRIES, NANOS_PER_SECOND};
use changqiao::openapi::{global_rate_limiter, Acquire, ExecuteStep, Execution, RateLimiter};

const MILLIS: u64 = 1_000_000;

#[test]
fn test_rate_limiter_basic() {
    let mut limiter = RateLimiter::new(10, 20, 0);
    // Should acquire immediately
    assert_eq!(limiter.acquire(0), Acquire::Granted);
    assert_eq!(limiter.available_tokens(), 19);
}

#[test]
fn test_rate_limiter_burst() {
    let mut limiter = RateLimiter::new(10, 5, 0);

    // Exhaust all tokens
    for _ in 0..5 {
        assert_eq!(limiter.acquire(0), Acquire::Granted);
    }

    // Next acquire should wait for refill: 1 token at 10/sec = 0.1s
    assert_eq!(limiter.acquire(0), Acquire::Wait { nanos: 100 * MILLIS });
    assert_eq!(limiter.acquire(90 * MILLIS), Acquire::Wait { nanos: 100 * MILLIS });
    assert_eq!(limiter.acquire(100 * MILLIS - 1), Acquire::Wait { nanos: 100 * MILLIS });
    assert_eq!(limiter.acquire(100 * MILLIS), Acquire::Granted);
    assert_eq!(limiter.available_tokens(), 0);
}

#[test]
fn test_execute_with_retry() {
    let mut attempt = 0;
    let mut run = Execution::new();
    let result = loop {
        attempt += 1;
        let outcome: Result<i32, &str> =
            if attempt < 2 { Err("429 rate limit exceeded") } else { Ok(42) };
        match RateLimiter::execute(&mut run, outcome.err()) {
            ExecuteStep::Return => break outcome,
            ExecuteStep::Retry { after_secs } => assert_eq!(after_secs, 1),
            ExecuteStep::Fail => break outcome,
        }
    };
    assert_eq!(result, Ok(42));
    assert_eq!(attempt, 2, "Should retry once");
    assert_eq!(run.retries(), 1);
}

#[test]
fn rate_and_capacity_are_at_least_one() {
    let mut limiter = RateLimiter::new(0, 0, 50);
    assert_eq!(limiter.available_tokens(), 1);
    assert_eq!(limiter.acquire(50), Acquire::Granted);
    assert_eq!(limiter.acquire(50), Acquire::Wait { nanos: NANOS_PER_SECOND });
    assert_eq!(limiter.acquire(50 + NANOS_PER_SECOND - 1), Acquire::Wait { nanos: NANOS_PER_SECOND });
    assert_eq!(limiter.acquire(50 + NANOS_PER_SECOND), Acquire::Granted);
}

#[test]
fn the_wait_is_one_token_period_rounded_up() {
    let mut limiter = RateLimiter::new(3, 1, 0);
    assert_eq!(limiter.acquire(0), Acquire::Granted);
    assert_eq!(limiter.acquire(0), Acquire::Wait { nanos: 333_333_334 });
    let mut fast = RateLimiter::new(u32::MAX, 1, 0);
    assert_eq!(fast.acquire(0), Acquire::Granted);
    assert_eq!(fast.acquire(0), Acquire::Wait { nanos: 1 });
}

#[test]
fn refill_is_truncated_and_capped() {
    let mut limiter = RateLimiter::new(10, 5, 0);
    for _ in 0..5 {
        assert_eq!(limiter.acquire(0), Acquire::Granted);
    }
    // 0.35 s at 10 a second: 3 tokens, and the refill time moves
    limiter.refill_tokens(350 * MILLIS);
    assert_eq!(limiter.available_tokens(), 3);
    // 0.09 s later: nothing yet
    limiter.refill_tokens(440 * MILLIS);
    assert_eq!(limiter.available_tokens(), 3);
    // 0.1 s after the refill: one more
    limiter.refill_tokens(450 * MILLIS);
    assert_eq!(limiter.available_tokens(), 4);
    // a long time later: full, and no more than full
    limiter.refill_tokens(100 * NANOS_PER_SECOND);
    assert_eq!(limiter.available_tokens(), 5);
    // a clock that reads earlier earns nothing
    assert_eq!(limiter.acquire(0), Acquire::Granted);
    limiter.refill_tokens(0);
    assert_eq!(limiter.available_tokens(), 4);
    limiter.refill_tokens(u64::MAX);
    assert_eq!(limiter.available_tokens(), 5);
}

#[test]
fn the_default_limiter_allows_twenty_in_a_burst() {
    let mut limiter = global_rate_limiter(1_000);
    for _ in 0..20 {
        assert_eq!(limiter.acquire(1_000), Acquire::Granted);
    }
    assert_eq!(limiter.acquire(1_000), Acquire::Wait { nanos: 100 * MILLIS });
    // ten a second afterwards
    assert_eq!(limiter.acquire(1_000 + NANOS_PER_SECOND), Acquire::Granted);
    assert_eq!(limiter.available_tokens(), 9);
}

#[test]
fn rate_limit_errors_are_told_by_their_message() {
    assert!(is_rate_limit_error("HTTP 429"));
    assert!(is_rate_limit_error("rate limit exceeded"));
    assert!(is_rate_limit_error("error: too many requests, slow down"));
    assert!(!is_rate_limit_error("Rate Limit"));
    assert!(!is_rate_limit_error("Too Many Requests"));
    assert!(!is_rate_limit_error("connection reset"));
    assert!(!is_rate_limit_error(""));
    assert!(!is_rate_limit_error("42 9"));
}

#[test]
fn refused_calls_are_retried_three_times_with_doubling_backoff() {
    let mut run = Execution::new();
    let refused = Some("429 rate limit exceeded");
    assert_eq!(RateLimiter::execute(&mut run, refused), ExecuteStep::Retry { after_secs: 1 });
    assert_eq!(RateLimiter::execute(&mut run, refused), ExecuteStep::Retry { after_secs: 2 });
    assert_eq!(RateLimiter::execute(&mut run, refused), ExecuteStep::Retry { after_secs: 4 });
    assert_eq!(run.retries(), MAX_RETRIES);
    assert_eq!(RateLimiter::execute(&mut run, refused), ExecuteStep::Fail);
    assert_eq!(RateLimiter::execute(&mut run, refused), ExecuteStep::Fail);
    assert_eq!(run.retries(), 3);
    assert_eq!(RateLimiter::execute(&mut run, None), ExecuteStep::Return);
}

#[test]
fn other_errors_are_not_retried() {
    let mut run = Execution::new();
    assert_eq!(RateLimiter::execute(&mut run, Some("connection reset")), ExecuteStep::Fail);
    assert_eq!(run.retries(), 0);
    assert_eq!(RateLimiter::execute(&mut run, None), ExecuteStep::Return);
    assert_eq!(run.retries(), 0);
    // after one retry, another kind of error ends the call
    assert_eq!(
        RateLimiter::execute(&mut run, Some("too many requests")),
        ExecuteStep::Retry { after_secs: 1 }
    );
    assert_eq!(RateLimiter::execute(&mut run, Some("boom")), ExecuteStep::Fail);
    assert_eq!(run.retries(), 1);
}

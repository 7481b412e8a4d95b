//! Admission control for calls to the upstream service: a token bucket, and the
//! retry policy of a rate-limited call.
//!
//! Nothing here sleeps or reads a clock. Time comes in as a reading of a
//! monotonic clock in nanoseconds; what to wait for goes out as a value, and the
//! caller waits.

use crate::text::{contains_text, text_contains};
use vstd::prelude::*;

verus! {

pub const NANOS_PER_SECOND: u64 = 1_000_000_000;

/// How often a rate-limited call is tried again.
pub const MAX_RETRIES: u32 = 3;

/// The state of a token bucket.
pub struct Budget {
    /// Tokens that come back per second.
    pub tokens_per_second: nat,
    /// The most tokens the bucket holds.
    pub max_tokens: nat,
    /// Tokens in the bucket.
    pub available: nat,
    /// Clock reading of the last refill, in nanoseconds.
    pub last_refill: nat,
}

/// Nanoseconds from the last refill to `now`; none where the clock reads earlier.
pub open spec fn elapsed(b: Budget, now: nat) -> nat {
    if now >= b.last_refill {
        (now - b.last_refill) as nat
    } else {
        0
    }
}

/// Whole tokens that came back between the last refill and `now`: elapsed time
/// times rate, truncated.
pub open spec fn earned(b: Budget, now: nat) -> nat {
    elapsed(b, now) * b.tokens_per_second / (NANOS_PER_SECOND as nat)
}

/// The bucket after the refill that an acquisition at `now` starts with: the
/// tokens earned go in, as far as there is room, and the refill time moves to
/// `now` if any went in.
pub open spec fn refilled(b: Budget, now: nat) -> Budget {
    let room = (b.max_tokens - b.available) as nat;
    let added = if earned(b, now) < room {
        earned(b, now)
    } else {
        room
    };
    if added > 0 {
        Budget { available: b.available + added, last_refill: now, ..b }
    } else {
        b
    }
}

/// Whether an acquisition at `now` gets a token.
pub open spec fn grants(b: Budget, now: nat) -> bool {
    refilled(b, now).available > 0
}

/// The bucket after an acquisition at `now`: refilled, and one token short if
/// there was one to take.
pub open spec fn acquired(b: Budget, now: nat) -> Budget {
    let r = refilled(b, now);
    if r.available > 0 {
        Budget { available: (r.available - 1) as nat, ..r }
    } else {
        r
    }
}

/// The wait between two attempts to acquire: one token period, `1 /
/// tokens_per_second` seconds, rounded up to whole nanoseconds.
pub open spec fn retry_wait(tokens_per_second: nat) -> nat {
    ((NANOS_PER_SECOND + tokens_per_second - 1) / tokens_per_second as int) as nat
}

/// A bucket as it is made: full, with rate and capacity at least 1.
pub open spec fn fresh(tokens_per_second: nat, max_tokens: nat, now: nat) -> Budget {
    let rate = if tokens_per_second < 1 {
        1
    } else {
        tokens_per_second
    };
    let capacity = if max_tokens < 1 {
        1
    } else {
        max_tokens
    };
    Budget { tokens_per_second: rate, max_tokens: capacity, available: capacity, last_refill: now }
}

/// The bucket after acquisitions at the times `calls`, in that order.
pub open spec fn after_calls(b: Budget, calls: Seq<nat>) -> Budget
    decreases calls.len(),
{
    if calls.len() == 0 {
        b
    } else {
        acquired(after_calls(b, calls.drop_last()), calls.last())
    }
}

/// What an attempt to acquire comes to.
#[derive(Clone, Copy, Debug, PartialEq, Eq, Structural)]
pub enum Acquire {
    /// A token was taken: go on.
    Granted,
    /// The bucket is empty: wait this long, then try again.
    Wait { nanos: u64 },
}

/// The token bucket.
pub struct RateLimiter {
    tokens_per_second: u32,
    max_tokens: u32,
    available: u32,
    last_refill: u64,
}

impl View for RateLimiter {
    type V = Budget;

    closed spec fn view(&self) -> Budget {
        Budget {
            tokens_per_second: self.tokens_per_second as nat,
            max_tokens: self.max_tokens as nat,
            available: self.available as nat,
            last_refill: self.last_refill as nat,
        }
    }
}

impl RateLimiter {
    #[verifier::type_invariant]
    spec fn well_formed(self) -> bool {
        &&& self.tokens_per_second >= 1
        &&& self.max_tokens >= 1
        &&& self.available <= self.max_tokens
    }

    /// A full bucket that gives back `tokens_per_second` tokens a second and holds
    /// `max_tokens` at most; either is raised to 1 where it is 0. `now` is the
    /// clock reading at creation.
    pub fn new(tokens_per_second: u32, max_tokens: u32, now: u64) -> (r: Self)
        ensures
            r@ == fresh(tokens_per_second as nat, max_tokens as nat, now as nat),
    {
        let rate: u32 = if tokens_per_second < 1 {
            1
        } else {
            tokens_per_second
        };
        let capacity: u32 = if max_tokens < 1 {
            1
        } else {
            max_tokens
        };
        RateLimiter {
            tokens_per_second: rate,
            max_tokens: capacity,
            available: capacity,
            last_refill: now,
        }
    }

    /// Puts back the tokens earned since the last refill.
    pub fn refill_tokens(&mut self, now: u64)
        ensures
            final(self)@ == refilled(old(self)@, now as nat),
    {
        proof {
            use_type_invariant(&*self);
        }
        let passed: u64 = if now >= self.last_refill {
            now - self.last_refill
        } else {
            0
        };
        assert((passed as u128) * (self.tokens_per_second as u128) <= 0xFFFF_FFFF_FFFF_FFFFu128
            * 0xFFFF_FFFFu128) by (nonlinear_arith)
            requires
                passed <= 0xFFFF_FFFF_FFFF_FFFFu128,
                self.tokens_per_second <= 0xFFFF_FFFFu128,
        ;
        let earned: u128 = (passed as u128) * (self.tokens_per_second as u128) / (
        NANOS_PER_SECOND as u128);
        let room: u32 = self.max_tokens - self.available;
        let added: u32 = if earned < room as u128 {
            earned as u32
        } else {
            room
        };
        if added > 0 {
            self.available = self.available + added;
            self.last_refill = now;
        }
    }

    /// One attempt to acquire a token at clock reading `now`: refills, then takes
    /// a token if there is one. Where there is none, the answer says how long to
    /// wait before the next attempt.
    pub fn acquire(&mut self, now: u64) -> (r: Acquire)
        ensures
            final(self)@ == acquired(old(self)@, now as nat),
            r == if grants(old(self)@, now as nat) {
                Acquire::Granted
            } else {
                Acquire::Wait { nanos: retry_wait(old(self)@.tokens_per_second) as u64 }
            },
            retry_wait(old(self)@.tokens_per_second) * old(self)@.tokens_per_second
                >= NANOS_PER_SECOND,
            retry_wait(old(self)@.tokens_per_second) <= NANOS_PER_SECOND,
    {
        proof {
            use_type_invariant(&*self);
        }
        self.refill_tokens(now);
        proof {
            use_type_invariant(&*self);
            lemma_retry_wait(self.tokens_per_second as nat);
        }
        if self.available > 0 {
            self.available = self.available - 1;
            Acquire::Granted
        } else {
            let rate: u64 = self.tokens_per_second as u64;
            Acquire::Wait { nanos: (NANOS_PER_SECOND + rate - 1) / rate }
        }
    }

    /// Tokens in the bucket as of the last attempt.
    pub fn available_tokens(&self) -> (r: usize)
        ensures
            r == self@.available,
    {
        self.available as usize
    }
}

/// The bucket for the upstream service's documented limit: 10 calls a second, 20
/// in a burst.
pub fn global_rate_limiter(now: u64) -> (r: RateLimiter)
    ensures
        r@ == fresh(10, 20, now as nat),
{
    RateLimiter::new(10, 20, now)
}

/// The wait between attempts is at least one token period and at most a second.
pub proof fn lemma_retry_wait(tokens_per_second: nat)
    requires
        tokens_per_second >= 1,
    ensures
        retry_wait(tokens_per_second) * tokens_per_second >= NANOS_PER_SECOND,
        retry_wait(tokens_per_second) <= NANOS_PER_SECOND,
        retry_wait(tokens_per_second) >= 1 || tokens_per_second > NANOS_PER_SECOND,
{
    let n = NANOS_PER_SECOND as int;
    let t = tokens_per_second as int;
    let w = (n + t - 1) / t;
    assert(w * t >= n && w <= n) by (nonlinear_arith)
        requires
            t >= 1,
            n >= 1,
            w == (n + t - 1) / t,
    ;
}

/// A bucket made at `start` grants the first `max_tokens` acquisitions that come
/// before one token period has passed, and refuses every further one that comes
/// before then: a refused caller is not admitted until at least `1 /
/// tokens_per_second` seconds after `start`.
pub proof fn lemma_burst_then_wait(
    tokens_per_second: nat,
    max_tokens: nat,
    start: nat,
    calls: Seq<nat>,
    i: int,
)
    requires
        0 <= i < calls.len(),
        forall|k: int|
            0 <= k < calls.len() ==> (calls[k] - start) * fresh(
                tokens_per_second,
                max_tokens,
                start,
            ).tokens_per_second < NANOS_PER_SECOND,
    ensures
        grants(after_calls(fresh(tokens_per_second, max_tokens, start), calls.take(i)), calls[i])
            == (i < fresh(tokens_per_second, max_tokens, start).max_tokens),
{
    lemma_burst_state(tokens_per_second, max_tokens, start, calls.take(i));
    let b = after_calls(fresh(tokens_per_second, max_tokens, start), calls.take(i));
    lemma_nothing_earned(b, calls[i]);
}

/// Before one token period has passed since the last refill, no token is earned.
pub proof fn lemma_nothing_earned(b: Budget, now: nat)
    requires
        (now - b.last_refill) * b.tokens_per_second < NANOS_PER_SECOND,
    ensures
        earned(b, now) == 0,
        refilled(b, now) == b,
{
    let e = elapsed(b, now) as int;
    let t = b.tokens_per_second as int;
    let n = NANOS_PER_SECOND as int;
    assert(0 <= e * t < n) by (nonlinear_arith)
        requires
            e >= 0,
            t >= 0,
            e == 0 || e * t < n,
            n > 0,
    ;
    assert((e * t) / n == 0) by (nonlinear_arith)
        requires
            0 <= e * t < n,
    ;
}

/// The bucket after a burst: it holds what the burst left of its capacity, and
/// was never refilled.
pub proof fn lemma_burst_state(tokens_per_second: nat, max_tokens: nat, start: nat, calls: Seq<nat>)
    requires
        forall|k: int|
            0 <= k < calls.len() ==> (calls[k] - start) * fresh(
                tokens_per_second,
                max_tokens,
                start,
            ).tokens_per_second < NANOS_PER_SECOND,
    ensures
        after_calls(fresh(tokens_per_second, max_tokens, start), calls) == (Budget {
            available: if calls.len() < fresh(tokens_per_second, max_tokens, start).max_tokens {
                (fresh(tokens_per_second, max_tokens, start).max_tokens - calls.len()) as nat
            } else {
                0
            },
            ..fresh(tokens_per_second, max_tokens, start)
        }),
    decreases calls.len(),
{
    if calls.len() > 0 {
        let init = calls.drop_last();
        assert forall|k: int| 0 <= k < init.len() implies (init[k] - start) * fresh(
            tokens_per_second,
            max_tokens,
            start,
        ).tokens_per_second < NANOS_PER_SECOND by {
            assert(init[k] == calls[k]);
        }
        lemma_burst_state(tokens_per_second, max_tokens, start, init);
        let b = after_calls(fresh(tokens_per_second, max_tokens, start), init);
        assert(calls.last() == calls[calls.len() - 1]);
        lemma_nothing_earned(b, calls.last());
    }
}

/// Whether an error message tells of rate limiting by the upstream service.
pub open spec fn is_rate_limit_message(message: Seq<char>) -> bool {
    contains_text(message, "429"@) || contains_text(message, "rate limit"@) || contains_text(
        message,
        "too many requests"@,
    )
}

/// Whether an error message tells of rate limiting by the upstream service.
pub fn is_rate_limit_error(message: &str) -> (r: bool)
    ensures
        r == is_rate_limit_message(message@),
{
    text_contains(message, "429") || text_contains(message, "rate limit") || text_contains(
        message,
        "too many requests",
    )
}

/// The backoff before retry number `retry`, counted from 1: one second, doubled
/// with each retry.
pub open spec fn backoff_secs(retry: nat) -> nat
    decreases retry,
{
    if retry <= 1 {
        1
    } else {
        2 * backoff_secs((retry - 1) as nat)
    }
}

/// What a rate-limited call does after an attempt.
#[derive(Clone, Copy, Debug, PartialEq, Eq, Structural)]
pub enum ExecuteStep {
    /// The attempt succeeded: return its result.
    Return,
    /// The service limited the rate: wait this many seconds, acquire a token, and
    /// try again.
    Retry { after_secs: u64 },
    /// Return the attempt's error.
    Fail,
}

/// What follows an attempt that ended with `failure` (`None` for success), after
/// `retries` retries so far.
pub open spec fn execute_step(retries: nat, failure: Option<Seq<char>>) -> ExecuteStep {
    match failure {
        None => ExecuteStep::Return,
        Some(message) => if is_rate_limit_message(message) && retries < MAX_RETRIES {
            ExecuteStep::Retry { after_secs: backoff_secs(retries + 1) as u64 }
        } else {
            ExecuteStep::Fail
        },
    }
}

/// The progress of one rate-limited call: how often it was retried.
pub struct Execution {
    retry_count: u32,
    backoff: u64,
}

impl View for Execution {
    type V = nat;

    /// The number of retries so far.
    closed spec fn view(&self) -> nat {
        self.retry_count as nat
    }
}

impl Execution {
    #[verifier::type_invariant]
    spec fn well_formed(self) -> bool {
        &&& self.retry_count <= MAX_RETRIES
        &&& self.backoff == backoff_secs((self.retry_count + 1) as nat)
    }

    /// A call that has not been retried.
    pub fn new() -> (r: Self)
        ensures
            r@ == 0,
    {
        Execution { retry_count: 0, backoff: 1 }
    }

    /// How often the call was retried.
    pub fn retries(&self) -> (r: u32)
        ensures
            r == self@,
    {
        self.retry_count
    }
}

impl RateLimiter {
    /// Decides what a rate-limited call does after an attempt. `failure` is the
    /// attempt's error message, `None` if it succeeded.
    ///
    /// An error that tells of rate limiting is answered with a retry, up to three
    /// times, after 1, 2 and 4 seconds. Any other error, and the fourth such
    /// error, goes back to the caller.
    pub fn execute(run: &mut Execution, failure: Option<&str>) -> (r: ExecuteStep)
        ensures
            r == execute_step(
                old(run)@,
                match failure {
                    Some(message) => Some(message@),
                    None => None,
                },
            ),
            final(run)@ == if r is Retry {
                old(run)@ + 1
            } else {
                old(run)@
            },
    {
        proof {
            use_type_invariant(&*run);
            reveal_with_fuel(backoff_secs, 6);
        }
        match failure {
            None => ExecuteStep::Return,
            Some(message) => {
                if is_rate_limit_error(message) && run.retry_count < MAX_RETRIES {
                    let after_secs = run.backoff;
                    *run = Execution { retry_count: run.retry_count + 1, backoff: run.backoff * 2 };
                    ExecuteStep::Retry { after_secs }
                } else {
                    ExecuteStep::Fail
                }
            },
        }
    }
}

/// The attempts that a rate-limited call makes when its attempts end as
/// `outcomes` says, one after the other (`None` for success, else the error
/// message), having been retried `retries` times before.
pub open spec fn attempts_made(outcomes: Seq<Option<Seq<char>>>, retries: nat) -> nat
    decreases outcomes.len(),
{
    if outcomes.len() == 0 {
        0
    } else if execute_step(retries, outcomes[0]) is Retry {
        1 + attempts_made(outcomes.drop_first(), retries + 1)
    } else {
        1
    }
}

/// The step that ends the call, where it ends within `outcomes`.
pub open spec fn final_step(outcomes: Seq<Option<Seq<char>>>, retries: nat) -> Option<ExecuteStep>
    decreases outcomes.len(),
{
    if outcomes.len() == 0 {
        None
    } else if execute_step(retries, outcomes[0]) is Retry {
        final_step(outcomes.drop_first(), retries + 1)
    } else {
        Some(execute_step(retries, outcomes[0]))
    }
}

/// A call whose first `failures` attempts are refused for rate limiting, and
/// whose next attempt would succeed, is retried `min(failures, 3)` times. It
/// returns that success if `failures` is at most 3, and the fourth refusal
/// otherwise.
pub proof fn lemma_retries_on_rate_limit(outcomes: Seq<Option<Seq<char>>>, failures: nat)
    requires
        outcomes.len() == failures + 1,
        forall|k: int|
            0 <= k < failures ==> outcomes[k] is Some && is_rate_limit_message(outcomes[k]->0),
        outcomes[failures as int] is None,
    ensures
        attempts_made(outcomes, 0) == 1 + if failures < MAX_RETRIES {
            failures
        } else {
            MAX_RETRIES as nat
        },
        final_step(outcomes, 0) == Some(
            if failures <= MAX_RETRIES {
                ExecuteStep::Return
            } else {
                ExecuteStep::Fail
            },
        ),
{
    lemma_retries_from(outcomes, failures, 0);
}

/// The same, for a call that has already been retried.
pub proof fn lemma_retries_from(outcomes: Seq<Option<Seq<char>>>, failures: nat, retries: nat)
    requires
        retries <= MAX_RETRIES,
        outcomes.len() == failures + 1,
        forall|k: int|
            0 <= k < failures ==> outcomes[k] is Some && is_rate_limit_message(outcomes[k]->0),
        outcomes[failures as int] is None,
    ensures
        attempts_made(outcomes, retries) == 1 + if failures < MAX_RETRIES - retries {
            failures
        } else {
            (MAX_RETRIES - retries) as nat
        },
        final_step(outcomes, retries) == Some(
            if failures <= MAX_RETRIES - retries {
                ExecuteStep::Return
            } else {
                ExecuteStep::Fail
            },
        ),
    decreases outcomes.len(),
{
    if failures > 0 && retries < MAX_RETRIES {
        let rest = outcomes.drop_first();
        assert forall|k: int| 0 <= k < failures - 1 implies rest[k] is Some
            && is_rate_limit_message(rest[k]->0) by {
            assert(rest[k] == outcomes[k + 1]);
        }
        assert(rest[failures - 1] == outcomes[failures as int]);
        lemma_retries_from(rest, (failures - 1) as nat, retries + 1);
    }
}

/// A call whose first attempt fails with an error that does not tell of rate
/// limiting is not retried: it makes that one attempt and returns its error.
pub proof fn lemma_no_retry_on_other_errors(outcomes: Seq<Option<Seq<char>>>)
    requires
        outcomes.len() > 0,
        outcomes[0] is Some,
        !is_rate_limit_message(outcomes[0]->0),
    ensures
        attempts_made(outcomes, 0) == 1,
        final_step(outcomes, 0) == Some(ExecuteStep::Fail),
{
}

} // verus!

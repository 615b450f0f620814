//! Retry with exponential back-off: the decisions between attempts.
//!
//! The caller makes each attempt and waits; [`retry_action`] says, after
//! each attempt, whether to stop with that attempt's outcome or to wait and
//! try again, and for how long.
use vstd::prelude::*;
use vstd::arithmetic::power2::{lemma2_to64, lemma2_to64_rest, lemma_pow2_strictly_increases, lemma_pow2_unfold, pow2};

verus! {

/// Retry options.
#[derive(Debug, Clone, Copy)]
pub struct RetryOptions {
    /// Number of attempts.
    pub attempts: u32,
    /// Initial delay in milliseconds.
    pub delay_ms: u64,
    /// Maximum delay in milliseconds.
    pub max_delay_ms: u64,
}

impl Default for RetryOptions {
    fn default() -> (r: Self)
        ensures
            r.attempts == 3,
            r.delay_ms == 1000,
            r.max_delay_ms == 30000,
    {
        RetryOptions { attempts: 3, delay_ms: 1000, max_delay_ms: 30000 }
    }
}

/// The wait after the failed attempt number `attempt` (counting from 0):
/// the initial delay doubled once per earlier attempt, capped at the maximum.
pub open spec fn backoff_ms(options: RetryOptions, attempt: nat) -> int {
    let d = options.delay_ms * pow2(attempt);
    if d <= options.max_delay_ms {
        d
    } else {
        options.max_delay_ms as int
    }
}

/// The wait after attempt number `attempt` can be computed in 64-bit
/// arithmetic: `2^attempt` and `delay_ms * 2^attempt` fit in a `u64`.
pub open spec fn backoff_fits(options: RetryOptions, attempt: nat) -> bool {
    attempt < 64 && options.delay_ms * pow2(attempt) <= u64::MAX
}

/// The wait after the failed attempt number `attempt`, or `None` where
/// `2^attempt` or `delay_ms * 2^attempt` overflows a `u64`.
pub fn backoff_delay(options: &RetryOptions, attempt: u32) -> (r: Option<u64>)
    ensures
        r is Some <==> backoff_fits(*options, attempt as nat),
        r matches Some(d) ==> d == backoff_ms(*options, attempt as nat),
{
    if attempt >= 64 {
        return None;
    }
    let mut p: u64 = 1;
    let mut k: u32 = 0;
    proof {
        lemma2_to64();
    }
    while k < attempt
        invariant
            k <= attempt < 64,
            p == pow2(k as nat),
        decreases attempt - k,
    {
        proof {
            lemma_pow2_bound(k as nat);
        }
        p = p * 2;
        k = k + 1;
    }
    match options.delay_ms.checked_mul(p) {
        None => None,
        Some(d) => {
            if d <= options.max_delay_ms {
                Some(d)
            } else {
                Some(options.max_delay_ms)
            }
        },
    }
}

/// `2^(n+1)` fits in a `u64` below 63.
proof fn lemma_pow2_bound(n: nat)
    requires
        n < 63,
    ensures
        pow2(n + 1) == 2 * pow2(n),
        pow2(n + 1) <= u64::MAX,
{
    lemma_pow2_unfold(n + 1);
    lemma2_to64_rest();
    if n + 1 < 63 {
        lemma_pow2_strictly_increases(n + 1, 63);
    }
}

/// `2^n` grows with `n`.
pub proof fn lemma_pow2_le(a: nat, b: nat)
    requires
        a <= b,
    ensures
        pow2(a) <= pow2(b),
{
    if a < b {
        lemma_pow2_strictly_increases(a, b);
    }
}

/// What to do after an attempt.
#[derive(Debug, Clone, Copy, PartialEq, Eq, Structural)]
pub enum RetryAction {
    /// Stop and hand back this attempt's outcome.
    Finish,
    /// Wait this many milliseconds, then make the next attempt.
    WaitThenRetry(u64),
}

/// The action after attempt number `attempt` (counting from 0) of
/// `options.attempts`: finish after a success or after the last attempt,
/// otherwise wait [`backoff_ms`] and retry.
pub open spec fn spec_retry_action(options: RetryOptions, attempt: nat, failed: bool) -> RetryAction {
    if failed && attempt + 1 < options.attempts {
        RetryAction::WaitThenRetry(backoff_ms(options, attempt) as u64)
    } else {
        RetryAction::Finish
    }
}

/// Decides what follows attempt number `attempt` (counting from 0), given
/// whether it failed.
///
/// Returns `None` exactly where computing the wait overflows (`2^attempt`
/// or `delay_ms * 2^attempt` beyond `u64`).
pub fn retry_action(options: &RetryOptions, attempt: u32, failed: bool) -> (r: Option<RetryAction>)
    requires
        attempt < options.attempts,
    ensures
        r is None <==> (failed && attempt + 1 < options.attempts && !backoff_fits(*options, attempt as nat)),
        r matches Some(a) ==> a == spec_retry_action(*options, attempt as nat, failed),
{
    if failed && attempt < options.attempts - 1 {
        match backoff_delay(options, attempt) {
            None => None,
            Some(d) => Some(RetryAction::WaitThenRetry(d)),
        }
    } else {
        Some(RetryAction::Finish)
    }
}

/// No wait exceeds the maximum delay.
pub proof fn lemma_wait_at_most_max(options: RetryOptions, attempt: nat)
    ensures
        backoff_ms(options, attempt) <= options.max_delay_ms,
{
}

/// Waits never shrink from one attempt to the next.
pub proof fn lemma_waits_grow(options: RetryOptions, a: nat, b: nat)
    requires
        a <= b,
    ensures
        backoff_ms(options, a) <= backoff_ms(options, b),
{
    lemma_pow2_le(a, b);
    assert(options.delay_ms * pow2(a) <= options.delay_ms * pow2(b)) by (nonlinear_arith)
        requires
            pow2(a) <= pow2(b),
    ;
}

/// The last allowed attempt is never followed by a wait, whatever its
/// outcome; so a single attempt never waits.
pub proof fn lemma_last_attempt_finishes(options: RetryOptions, failed: bool)
    requires
        options.attempts >= 1,
    ensures
        spec_retry_action(options, (options.attempts - 1) as nat, failed) == RetryAction::Finish,
{
}

/// A successful attempt always finishes the retry.
pub proof fn lemma_success_finishes(options: RetryOptions, attempt: nat)
    ensures
        spec_retry_action(options, attempt, false) == RetryAction::Finish,
{
}

/// The number of attempts a retry makes, from attempt `from` on, when
/// `fails(i)` tells whether attempt `i` fails.
pub open spec fn attempts_made(options: RetryOptions, fails: spec_fn(nat) -> bool, from: nat) -> nat
    decreases options.attempts - from,
{
    if from + 1 >= options.attempts || !fails(from) {
        from + 1
    } else {
        attempts_made(options, fails, from + 1)
    }
}

/// A retry stops at its first successful attempt, or after all attempts
/// when every one fails: with `attempts >= 1`, the number of attempts made
/// is one more than the index of the first success, or `attempts`.
pub proof fn lemma_attempts_made(options: RetryOptions, fails: spec_fn(nat) -> bool, from: nat)
    requires
        from < options.attempts,
    ensures
        attempts_made(options, fails, from) <= options.attempts,
        (forall|i: nat| from <= i < options.attempts ==> #[trigger] fails(i))
            ==> attempts_made(options, fails, from) == options.attempts,
        forall|k: nat|
            from <= k < options.attempts && !#[trigger] fails(k) && (forall|i: nat| from <= i < k ==> #[trigger] fails(i))
                ==> attempts_made(options, fails, from) == k + 1,
        forall|i: nat| from <= i < attempts_made(options, fails, from) - 1 ==> #[trigger] spec_retry_action(
            options, i, fails(i)) != RetryAction::Finish,
        spec_retry_action(options, (attempts_made(options, fails, from) - 1) as nat,
            fails((attempts_made(options, fails, from) - 1) as nat)) == RetryAction::Finish,
    decreases options.attempts - from,
{
    if from + 1 >= options.attempts || !fails(from) {
    } else {
        lemma_attempts_made(options, fails, from + 1);
        assert forall|k: nat|
            from <= k < options.attempts && !#[trigger] fails(k) && (forall|i: nat| from <= i < k ==> #[trigger] fails(i))
                implies attempts_made(options, fails, from) == k + 1 by {
            if k == from {
            } else {
                assert forall|i: nat| from + 1 <= i < k implies #[trigger] fails(i) by {}
            }
        }
    }
}

} // verus!

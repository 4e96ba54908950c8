//! Pacing of retries: each waits twice as long as the one before, up to a
//! cap.

use vstd::prelude::*;

verus! {

/// The delay of the first retry, in milliseconds.
pub const RETRY_BACKOFF_START: u32 = 500;

/// The longest delay of a retry, in milliseconds.
pub const RETRY_BACKOFF_CAP: u32 = 5000;

/// The delay, in milliseconds, of the retry that `attempt` retries came
/// before: 500, 1000, 2000, 4000, and 5000 from then on.
pub open spec fn backoff_millis(attempt: nat) -> nat
    decreases attempt,
{
    if attempt == 0 {
        500
    } else if 2 * backoff_millis((attempt - 1) as nat) < 5000 {
        2 * backoff_millis((attempt - 1) as nat)
    } else {
        5000
    }
}

/// The sum of the delays of the first `n` retries.
pub open spec fn total_backoff(n: nat) -> nat
    decreases n,
{
    if n == 0 {
        0
    } else {
        total_backoff((n - 1) as nat) + backoff_millis((n - 1) as nat)
    }
}

/// Every delay lies between the start value and the cap, and delays never
/// shrink.
pub proof fn law_backoff_bounds(attempt: nat)
    ensures
        500 <= backoff_millis(attempt) <= 5000,
        backoff_millis(attempt) <= backoff_millis(attempt + 1),
    decreases attempt,
{
    if attempt > 0 {
        law_backoff_bounds((attempt - 1) as nat);
    }
}

/// Once the cap is reached, every later delay is the cap.
pub proof fn lemma_backoff_capped(from: nat, attempt: nat)
    requires
        from <= attempt,
        backoff_millis(from) == 5000,
    ensures
        backoff_millis(attempt) == 5000,
    decreases attempt,
{
    if attempt > from {
        lemma_backoff_capped(from, (attempt - 1) as nat);
    }
}

/// The delays in closed form: they double up to the fourth and are the cap
/// from the fifth on.
pub proof fn lemma_backoff_values(attempt: nat)
    ensures
        attempt == 0 ==> backoff_millis(attempt) == 500,
        attempt == 1 ==> backoff_millis(attempt) == 1000,
        attempt == 2 ==> backoff_millis(attempt) == 2000,
        attempt == 3 ==> backoff_millis(attempt) == 4000,
        attempt >= 4 ==> backoff_millis(attempt) == 5000,
{
    reveal_with_fuel(backoff_millis, 6);
    if attempt >= 4 {
        lemma_backoff_capped(4, attempt);
    }
}

/// The time that `n` retries take in closed form: it grows as a power of
/// two for the first four retries and by the cap for each later one.
pub proof fn lemma_total_backoff_values(n: nat)
    ensures
        n == 0 ==> total_backoff(n) == 0,
        n == 1 ==> total_backoff(n) == 500,
        n == 2 ==> total_backoff(n) == 1500,
        n == 3 ==> total_backoff(n) == 3500,
        n >= 4 ==> total_backoff(n) == 7500 + 5000 * (n - 4),
    decreases n,
{
    if n > 0 {
        lemma_total_backoff_values((n - 1) as nat);
        lemma_backoff_values((n - 1) as nat);
    }
}

/// Retries that fit a time budget are few: at most three within 7.5
/// seconds, and beyond that at most one more for every 5 seconds.
pub proof fn law_few_retries_fit(n: nat, budget: nat)
    requires
        total_backoff(n) <= budget,
    ensures
        budget < 500 ==> n == 0,
        budget < 1500 ==> n <= 1,
        budget < 3500 ==> n <= 2,
        budget < 7500 ==> n <= 3,
        n <= 4 + budget / 5000,
{
    lemma_total_backoff_values(n);
}

/// The delay, in milliseconds, of the retry that `attempt` retries came
/// before.
pub fn backoff(attempt: u32) -> (ms: u32)
    ensures
        ms == backoff_millis(attempt as nat),
        RETRY_BACKOFF_START <= ms <= RETRY_BACKOFF_CAP,
{
    let mut ms: u32 = RETRY_BACKOFF_START;
    let mut i: u32 = 0;
    while i < attempt && ms < RETRY_BACKOFF_CAP
        invariant
            i <= attempt,
            ms == backoff_millis(i as nat),
            500 <= ms <= 5000,
        decreases attempt - i,
    {
        ms = if ms * 2 < RETRY_BACKOFF_CAP {
            ms * 2
        } else {
            RETRY_BACKOFF_CAP
        };
        i += 1;
    }
    proof {
        if i < attempt {
            lemma_backoff_capped(i as nat, attempt as nat);
        }
    }
    ms
}

/// The sum, in milliseconds, of the delays of the first `n` retries.
pub fn total_backoff_of(n: u32) -> (ms: u64)
    ensures
        ms == total_backoff(n as nat),
{
    proof {
        lemma_total_backoff_values(n as nat);
    }
    if n == 0 {
        0
    } else if n == 1 {
        500
    } else if n == 2 {
        1500
    } else if n == 3 {
        3500
    } else {
        7500 + 5000 * ((n - 4) as u64)
    }
}

} // verus!

//! The resilient single-fetch policy: rate-limit detection, exponential
//! backoff with jitter, and the bounded retry loop.
//!
//! One authenticated request is attempted up to [`RETRY_LIMIT`] times.
//! A rate-limited status (HTTP 403) triggers a backoff sleep and a
//! retry; the final rate-limited response is returned as-is so the
//! caller can decide how to degrade. Any other status is returned
//! without retry. Transport errors are not retried at all; they
//! propagate to the caller before this policy sees a status.

use vstd::prelude::*;

use crate::BACKOFF_BASE_MS;

verus! {

/// Total number of attempts for one fetch.
pub const RETRY_LIMIT: u64 = 3;

/// The status treated as a transient rate-limit signal.
pub const RATE_LIMIT_STATUS: u16 = 403;

/// `2^n` for the small exponents the retry policy uses.
pub open spec fn pow2(n: int) -> int
    decreases n,
{
    if n <= 0 {
        1
    } else {
        2 * pow2(n - 1)
    }
}

/// The un-jittered backoff delay before retry `attempt` (0-indexed), in
/// milliseconds.
pub open spec fn backoff_base_spec(attempt: int) -> int {
    BACKOFF_BASE_MS * pow2(attempt)
}

/// The un-jittered backoff delay before retry `attempt`.
pub fn backoff_base_ms(attempt: u64) -> (r: u64)
    requires
        attempt < RETRY_LIMIT,
    ensures
        r == backoff_base_spec(attempt as int),
        2 <= r <= 2000,
        r % 2 == 0,
{
    let p: u64 = if attempt == 0 {
        1
    } else if attempt == 1 {
        2
    } else {
        4
    };
    proof {
        assert(pow2(0) == 1);
        assert(pow2(1) == 2);
        assert(pow2(2) == 4);
    }
    BACKOFF_BASE_MS * p
}

/// Relies on `rand::random_range`: a draw from `0..bound` is uniform in
/// the half-open range, so strictly below `bound`. Nothing more is
/// promised of a random value.
#[verifier::external_body]
fn draw_jitter(bound: u64) -> (r: u64)
    requires
        bound > 0,
    ensures
        r < bound,
{
    rand::random_range(0..bound)
}

/// The backoff delay before retry `attempt` (0-indexed): the exponential
/// base plus a random jitter of less than half the base, so the delay
/// lies in `[base * 2^attempt, base * 2^attempt * 3/2)` milliseconds.
pub fn backoff_delay_ms(attempt: u64) -> (r: u64)
    requires
        attempt < RETRY_LIMIT,
    ensures
        backoff_base_spec(attempt as int) <= r,
        2 * r < 3 * backoff_base_spec(attempt as int),
{
    let base = backoff_base_ms(attempt);
    let jitter = draw_jitter(base / 2);
    base + jitter
}

/// What the fetch policy does after seeing one response status.
#[derive(Clone, Copy, Debug, PartialEq, Eq, Structural)]
pub enum FetchStep {
    /// Return this response to the caller.
    Accept,
    /// Sleep for the given delay in milliseconds, then retry.
    RetryAfter(u64),
}

/// Whether the policy retries: only a rate-limited status, and only
/// while attempts remain.
pub open spec fn retries(attempt: int, status: u16) -> bool {
    status == RATE_LIMIT_STATUS && attempt + 1 < RETRY_LIMIT
}

/// Decide what to do with the response of attempt `attempt` (0-indexed):
/// retry with backoff exactly on a rate-limited status that is not the
/// last attempt; accept every other response, the last rate-limited one
/// included.
pub fn retry_decision(attempt: u64, status: u16) -> (r: FetchStep)
    requires
        attempt < RETRY_LIMIT,
    ensures
        retries(attempt as int, status) ==> (r matches FetchStep::RetryAfter(d) && {
            &&& backoff_base_spec(attempt as int) <= d
            &&& 2 * d < 3 * backoff_base_spec(attempt as int)
        }),
        !retries(attempt as int, status) ==> r == FetchStep::Accept,
{
    if status == RATE_LIMIT_STATUS && attempt + 1 < RETRY_LIMIT {
        FetchStep::RetryAfter(backoff_delay_ms(attempt))
    } else {
        FetchStep::Accept
    }
}

/// How many requests the policy makes when attempt `i` would see status
/// `statuses[i]`: one per leading rate-limited status, capped at
/// [`RETRY_LIMIT`], plus the accepted one.
pub open spec fn attempts_used(statuses: Seq<u16>) -> int {
    if statuses[0] != RATE_LIMIT_STATUS {
        1
    } else if statuses[1] != RATE_LIMIT_STATUS {
        2
    } else {
        3
    }
}

/// The outcome of one resolved fetch: how many requests were made and
/// the status of the response handed to the caller.
#[derive(Clone, Copy, Debug, PartialEq, Eq, Structural)]
pub struct FetchOutcome {
    pub requests_made: u64,
    pub final_status: u16,
}

/// Run the retry policy against a script of statuses, `statuses[i]`
/// being what attempt `i` would see. Exactly the leading rate-limited
/// responses are retried, each after a backoff sleep recorded in
/// `delays`, and the first accepted response is returned.
pub fn resolve_fetch(statuses: &Vec<u16>) -> (r: (FetchOutcome, Vec<u64>))
    requires
        statuses@.len() >= RETRY_LIMIT,
    ensures
        r.0.requests_made == attempts_used(statuses@),
        r.0.final_status == statuses@[r.0.requests_made - 1],
        r.1@.len() == r.0.requests_made - 1,
        forall|i: int|
            0 <= i < r.1@.len() ==> backoff_base_spec(i) <= #[trigger] r.1@[i] && 2 * r.1@[i] < 3
                * backoff_base_spec(i),
{
    let mut delays: Vec<u64> = Vec::new();
    let mut attempt: u64 = 0;
    loop
        invariant
            statuses@.len() >= RETRY_LIMIT,
            attempt < RETRY_LIMIT,
            delays@.len() == attempt,
            forall|i: int|
                0 <= i < attempt ==> statuses@[i] == RATE_LIMIT_STATUS,
            forall|i: int|
                0 <= i < delays@.len() ==> backoff_base_spec(i) <= #[trigger] delays@[i] && 2
                    * delays@[i] < 3 * backoff_base_spec(i),
        decreases RETRY_LIMIT - attempt,
    {
        let status = statuses[attempt as usize];
        match retry_decision(attempt, status) {
            FetchStep::Accept => {
                return (FetchOutcome { requests_made: attempt + 1, final_status: status }, delays);
            },
            FetchStep::RetryAfter(d) => {
                delays.push(d);
                attempt = attempt + 1;
            },
        }
    }
}

} // verus!

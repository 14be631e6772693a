//! Retry policy (how long to wait before a retry and whether one is due),
//! and the decisions of the request executor: from the outcome of an
//! attempt to delivering the body, waiting and retrying, or failing.

use vstd::prelude::*;

use crate::errors::{classify_response, is_success_status, status_error, DatadogError, ErrorView};

verus! {

/// Largest retry count whose backoff, `2^n` seconds, fits in a `u64`.
pub const MAX_BACKOFF_EXPONENT: u32 = 63;

/// `2^n`.
pub open spec fn pow2(n: nat) -> nat
    decreases n,
{
    if n == 0 {
        1
    } else {
        2 * pow2((n - 1) as nat)
    }
}

/// `pow2` is at least one, and grows with its exponent.
pub proof fn lemma_pow2_monotonic(a: nat, b: nat)
    requires
        a <= b,
    ensures
        1 <= pow2(a) <= pow2(b),
    decreases b,
{
    if b > 0 {
        if a < b {
            lemma_pow2_monotonic(a, (b - 1) as nat);
        } else {
            lemma_pow2_monotonic((a - 1) as nat, (b - 1) as nat);
        }
    }
}

/// The largest backoff that a `u64` holds.
pub proof fn lemma_pow2_63()
    ensures
        pow2(63) == 0x8000_0000_0000_0000,
{
    reveal_with_fuel(pow2, 64);
}

/// Backoff in seconds before the retry numbered `retry_count`: `2^retry_count`.
pub fn calculate_backoff(retry_count: u32) -> (secs: u64)
    requires
        retry_count <= MAX_BACKOFF_EXPONENT,
    ensures
        secs == pow2(retry_count as nat),
{
    let mut secs: u64 = 1;
    let mut i: u32 = 0;
    while i < retry_count
        invariant
            i <= retry_count <= MAX_BACKOFF_EXPONENT,
            secs == pow2(i as nat),
        decreases retry_count - i,
    {
        proof {
            lemma_pow2_monotonic((i + 1) as nat, 63);
            lemma_pow2_63();
        }
        secs = secs * 2;
        i = i + 1;
    }
    secs
}

/// Whether another retry is due: only while fewer than `max_retries` were made.
pub fn should_retry(current_retry: u32, max_retries: u32) -> (r: bool)
    ensures
        r == (current_retry < max_retries),
{
    current_retry < max_retries
}

/// The seconds waited over the first `k` retries: `2 + 4 + ... + 2^k`.
pub open spec fn total_backoff(k: nat) -> nat
    decreases k,
{
    if k == 0 {
        0
    } else {
        total_backoff((k - 1) as nat) + pow2(k)
    }
}

/// A call that fails `k` times and then succeeds waits `2^(k+1) - 2` seconds
/// in all: the backoffs that `after_failure` hands out for retries `1..=k`
/// add up to that, and a success adds no wait.
pub proof fn lemma_total_backoff(k: nat)
    ensures
        total_backoff(k) + 2 == pow2(k + 1),
    decreases k,
{
    assert(pow2(k + 1) == 2 * pow2(k));
    if k > 0 {
        lemma_total_backoff((k - 1) as nat);
    }
}

/// What came of one attempt at a request.
pub enum AttemptOutcome {
    /// The request did not complete (connection, TLS or I/O failure).
    Transport(String),
    /// The server answered with this status and body text.
    Response { status: u16, body: String },
    /// The server answered with this status, but its body could not be read.
    Unreadable { status: u16, message: String },
    /// A successful body did not decode into the expected shape.
    Undecodable(String),
}

/// What the executor does next.
pub enum Step {
    /// Decode and return this body: the call succeeded.
    Deliver(String),
    /// Sleep this many seconds, then make the next attempt.
    Wait(u64),
    /// Give up with this error.
    Fail(DatadogError),
}

/// The error that a failed attempt stands for; none for a successful response.
/// A body that cannot be read fails a successful response as a network error,
/// and stands as `Unknown error` in an unsuccessful one.
pub open spec fn outcome_error(o: AttemptOutcome) -> Option<ErrorView> {
    match o {
        AttemptOutcome::Transport(m) => Some(ErrorView::Network(m@)),
        AttemptOutcome::Response { status, body } => if is_success_status(status) {
            None
        } else {
            Some(status_error(status, body@))
        },
        AttemptOutcome::Unreadable { status, message } => if is_success_status(status) {
            Some(ErrorView::Network(message@))
        } else {
            Some(status_error(status, "Unknown error"@))
        },
        AttemptOutcome::Undecodable(m) => Some(ErrorView::Network(m@)),
    }
}

/// The retry bookkeeping of one logical call.
pub struct RetryState {
    /// Retries made so far.
    pub attempt: u32,
    /// Retries allowed.
    pub max_retries: u32,
}

impl RetryState {
    /// The counter never passes the bound, and every backoff fits a `u64`.
    pub open spec fn well_formed(&self) -> bool {
        self.attempt <= self.max_retries <= MAX_BACKOFF_EXPONENT
    }

    /// A fresh logical call: no retry made yet.
    pub fn new(max_retries: u32) -> (r: Self)
        requires
            max_retries <= MAX_BACKOFF_EXPONENT,
        ensures
            r.attempt == 0,
            r.max_retries == max_retries,
            r.well_formed(),
    {
        RetryState { attempt: 0, max_retries }
    }

    /// After a failed attempt: wait `2^n` seconds before retry number `n`
    /// while retries remain, else give up with the error.
    pub fn after_failure(&mut self, error: DatadogError) -> (step: Step)
        requires
            old(self).well_formed(),
        ensures
            final(self).well_formed(),
            final(self).max_retries == old(self).max_retries,
            old(self).attempt < old(self).max_retries ==> final(self).attempt == old(self).attempt
                + 1 && step == Step::Wait(pow2(final(self).attempt as nat) as u64),
            old(self).attempt >= old(self).max_retries ==> final(self).attempt == old(self).attempt
                && step == Step::Fail(error),
    {
        if should_retry(self.attempt, self.max_retries) {
            self.attempt = self.attempt + 1;
            Step::Wait(calculate_backoff(self.attempt))
        } else {
            Step::Fail(error)
        }
    }

    /// Decides what follows an attempt: a successful response is delivered;
    /// any failure is classified, then retried after the backoff while
    /// retries remain, else returned.
    pub fn on_outcome(&mut self, outcome: AttemptOutcome) -> (step: Step)
        requires
            old(self).well_formed(),
        ensures
            final(self).well_formed(),
            final(self).max_retries == old(self).max_retries,
            final(self).attempt >= old(self).attempt,
            outcome_error(outcome) is None ==> final(self).attempt == old(self).attempt && (
            outcome matches AttemptOutcome::Response { body, .. } && step == Step::Deliver(body)),
            outcome_error(outcome) is Some && old(self).attempt < old(self).max_retries
                ==> final(self).attempt == old(self).attempt + 1 && step == Step::Wait(
                pow2(final(self).attempt as nat) as u64,
            ),
            outcome_error(outcome) is Some && old(self).attempt >= old(self).max_retries
                ==> final(self).attempt == old(self).attempt && (step matches Step::Fail(e)
                && Some(e@) == outcome_error(outcome)),
    {
        let error = match outcome {
            AttemptOutcome::Transport(m) => DatadogError::NetworkError(m),
            AttemptOutcome::Undecodable(m) => DatadogError::NetworkError(m),
            AttemptOutcome::Unreadable { status, message } => {
                match classify_response(status, String::from_str("Unknown error")) {
                    Ok(_) => DatadogError::NetworkError(message),
                    Err(e) => e,
                }
            },
            AttemptOutcome::Response { status, body } => match classify_response(status, body) {
                Ok(body) => {
                    return Step::Deliver(body);
                },
                Err(e) => e,
            },
        };
        self.after_failure(error)
    }
}

} // verus!

//! Bounded retry with exponential backoff for single remote calls.
//!
//! A remote failure is transient when the service itself failed (an
//! HTTP 5xx-equivalent status); everything else — authentication,
//! not-found, malformed input — is permanent. Transient failures are
//! retried up to a fixed number of additional attempts with delays of
//! 1, 2, 4, 8, … seconds; permanent failures propagate at once. Each
//! logical remote operation gets its own fresh attempt counter.

use vstd::arithmetic::power2::pow2;
use vstd::prelude::*;

use crate::error::RepriseError;

verus! {

/// Classification of a remote failure for retry purposes.
#[derive(Debug, PartialEq, Eq, Structural, Clone, Copy)]
pub enum ErrorClass {
    Transient,
    Permanent,
}

/// An error is transient exactly when it is an API error whose HTTP
/// status is 500 or above.
pub open spec fn spec_is_transient(e: &RepriseError) -> bool {
    match e {
        RepriseError::Api { status, .. } => status >= 500,
        _ => false,
    }
}

/// Classify a remote failure: server-side API errors (status 500 and
/// above) are transient, everything else is permanent.
pub fn classify_error(e: &RepriseError) -> (c: ErrorClass)
    ensures
        c == ErrorClass::Transient <==> spec_is_transient(e),
{
    match e {
        RepriseError::Api { status, .. } => {
            if *status >= 500 {
                ErrorClass::Transient
            } else {
                ErrorClass::Permanent
            }
        },
        _ => ErrorClass::Permanent,
    }
}

/// The backoff delay before retry attempt `attempt` (counting from 1):
/// `2^(attempt - 1)` time units.
pub fn backoff_delay(attempt: u32) -> (d: u64)
    requires
        1 <= attempt <= 63,
    ensures
        d == pow2((attempt - 1) as nat),
{
    proof {
        vstd::bits::lemma_u64_pow2_no_overflow((attempt - 1) as nat);
        vstd::bits::lemma_u64_shl_is_mul(1u64, (attempt - 1) as u64);
    }
    1u64 << ((attempt - 1) as u64)
}

/// What the policy decides after one failed attempt.
#[derive(Debug, PartialEq, Eq, Structural, Clone, Copy)]
pub enum RetryDecision {
    /// Sleep this many time units, then retry the call.
    RetryAfter(u64),
    /// Propagate the error without retrying.
    GiveUp,
}

/// Per-call retry state: how many retries have been made so far, out of
/// a fixed budget. Scoped to a single logical remote operation.
pub struct RetryState {
    pub attempt: u32,
    pub max_attempts: u32,
}

/// The state reached and the decision made when a failure of class `c`
/// hits the policy in state `(attempt, max_attempts)`.
pub open spec fn spec_retry_step(s: RetryState, transient: bool) -> (RetryState, RetryDecision) {
    if transient && s.attempt < s.max_attempts && s.attempt < 63 {
        (
            RetryState { attempt: (s.attempt + 1) as u32, max_attempts: s.max_attempts },
            RetryDecision::RetryAfter(pow2(s.attempt as nat) as u64),
        )
    } else {
        (s, RetryDecision::GiveUp)
    }
}

impl RetryState {
    /// A fresh retry budget for one remote operation.
    pub fn new(max_attempts: u32) -> (s: Self)
        ensures
            s.attempt == 0,
            s.max_attempts == max_attempts,
    {
        RetryState { attempt: 0, max_attempts }
    }

    /// Record one failed attempt. A transient failure within budget is
    /// answered with the next backoff delay; a permanent failure, or an
    /// exhausted budget, gives up at once, leaving the counter alone.
    pub fn on_failure(&mut self, e: &RepriseError) -> (d: RetryDecision)
        ensures
            *final(self) == spec_retry_step(*old(self), spec_is_transient(e)).0,
            d == spec_retry_step(*old(self), spec_is_transient(e)).1,
            !spec_is_transient(e) ==> d == RetryDecision::GiveUp && *final(self) == *old(self),
    {
        let transient = classify_error(e) == ErrorClass::Transient;
        if transient && self.attempt < self.max_attempts && self.attempt < 63 {
            self.attempt = self.attempt + 1;
            RetryDecision::RetryAfter(backoff_delay(self.attempt))
        } else {
            RetryDecision::GiveUp
        }
    }
}

/// The decisions produced when `k` transient failures in a row hit a
/// fresh policy: the state steps through attempts `0, 1, …, k` and the
/// `i`-th failure is answered with delay `2^i`.
pub open spec fn spec_transient_delays(k: nat) -> Seq<u64> {
    Seq::new(k, |i: int| pow2(i as nat) as u64)
}

/// Retry backoff sequence: a remote call that fails with transient
/// errors `k` times in a row, within budget, is answered with the
/// delays `1, 2, 4, …, 2^(k-1)`, in that order, and the policy then
/// still accepts whatever the next attempt returns — a success on the
/// following attempt is returned to the caller directly, since only
/// failures pass through the policy at all.
pub proof fn lemma_retry_backoff_sequence(max_attempts: u32, k: nat)
    requires
        k <= max_attempts,
        k <= 62,
    ensures
        forall|i: nat|
            i < k ==> #[trigger] spec_retry_after(max_attempts, i) == RetryDecision::RetryAfter(
                spec_transient_delays(k)[i as int],
            ),
{
    assert forall|i: nat| i < k implies #[trigger] spec_retry_after(max_attempts, i)
        == RetryDecision::RetryAfter((pow2(i) as u64)) by {
        lemma_state_after(max_attempts, i);
    }
}

/// The state after `n` transient failures hit a fresh policy.
pub open spec fn spec_state_after(max_attempts: u32, n: nat) -> RetryState
    decreases n,
{
    if n == 0 {
        RetryState { attempt: 0, max_attempts }
    } else {
        spec_retry_step(spec_state_after(max_attempts, (n - 1) as nat), true).0
    }
}

/// The decision the policy makes on the failure after `n` previous
/// transient failures.
pub open spec fn spec_retry_after(max_attempts: u32, n: nat) -> RetryDecision {
    spec_retry_step(spec_state_after(max_attempts, n), true).1
}

/// After `n` in-budget transient failures the attempt counter reads `n`.
proof fn lemma_state_after(max_attempts: u32, n: nat)
    requires
        n <= max_attempts,
        n <= 62,
    ensures
        spec_state_after(max_attempts, n).attempt == n,
        spec_state_after(max_attempts, n).max_attempts == max_attempts,
    decreases n,
{
    if n > 0 {
        lemma_state_after(max_attempts, (n - 1) as nat);
    }
}

/// Permanent errors skip retry: a call that fails with a permanent
/// error is attempted exactly once — the policy gives up on the first
/// failure without sleeping, whatever the remaining budget.
pub proof fn lemma_permanent_no_retry(s: RetryState)
    ensures
        spec_retry_step(s, false).1 == RetryDecision::GiveUp,
        spec_retry_step(s, false).0 == s,
{
}

} // verus!

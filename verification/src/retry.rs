//! Bounded-retry supervision of one range fetch: a state machine that
//! counts failed attempts and decides, after each outcome, whether the
//! range is done, should run again, or has failed for good.

use vstd::prelude::*;

use crate::errors::FetchError;

verus! {

/// The supervisor's decision after one range-fetch attempt.
pub enum RetryDecision {
    /// The attempt succeeded; the range is done.
    Success,
    /// The failure was transient and budget remains: fetch the range again
    /// from scratch.
    Retry,
    /// The failure is terminal for this range, carried along.
    Fail(FetchError),
}

/// Retry bookkeeping for one range.  The driver runs one attempt, feeds the
/// outcome to [`RetryState::observe`], and repeats while the decision is
/// [`RetryDecision::Retry`].
#[derive(Debug)]
pub struct RetryState {
    /// The retry budget fixed at construction, at least one.
    pub max_retries: u64,
    /// Transient failures counted so far.
    pub attempts: u64,
}

/// The message rejecting a zero retry budget.
pub open spec fn zero_retries_message() -> Seq<char> {
    "Number of max-retries must be greater than zero"@
}

impl RetryState {
    /// Between decisions the budget is not yet exhausted.
    pub open spec fn wf(self) -> bool {
        self.attempts < self.max_retries
    }

    /// Starts supervision of one range.  A zero budget is rejected up
    /// front with an invalid-argument error, before any attempt is made.
    pub fn new(max_retries: u64) -> (r: Result<RetryState, FetchError>)
        ensures
            max_retries == 0 ==> (r matches Err(e) && e matches
                FetchError::InvalidArgumentsError(m) && m@ == zero_retries_message()),
            max_retries >= 1 ==> (r matches Ok(s) && s == (RetryState {
                max_retries,
                attempts: 0,
            }) && s.wf()),
    {
        if max_retries == 0 {
            Err(
                FetchError::InvalidArgumentsError(
                    String::from_str("Number of max-retries must be greater than zero"),
                ),
            )
        } else {
            Ok(RetryState { max_retries, attempts: 0 })
        }
    }

    /// Judges the outcome of one attempt.  Success ends supervision; a
    /// client-side failure is surfaced at once, retrying cannot help; a
    /// transient failure is absorbed until the budget is spent; every
    /// other failure is terminal and leaves the state untouched.
    pub fn observe(&mut self, outcome: Result<(), FetchError>) -> (d: RetryDecision)
        requires
            old(self).wf(),
        ensures
            ({
                match outcome {
                    Ok(_) => d == RetryDecision::Success && *final(self) == *old(self),
                    Err(e) => if e.retryable() {
                        &&& final(self).max_retries == old(self).max_retries
                        &&& final(self).attempts == old(self).attempts + 1
                        &&& (old(self).attempts + 1 < old(self).max_retries ==> d
                            == RetryDecision::Retry && final(self).wf())
                        &&& (old(self).attempts + 1 >= old(self).max_retries ==> d
                            == RetryDecision::Fail(e))
                    } else if e.client_request() {
                        &&& final(self).max_retries == old(self).max_retries
                        &&& final(self).attempts == old(self).attempts + 1
                        &&& d == RetryDecision::Fail(e)
                    } else {
                        &&& *final(self) == *old(self)
                        &&& d == RetryDecision::Fail(e)
                    },
                }
            }),
    {
        match outcome {
            Ok(_) => RetryDecision::Success,
            Err(e) => {
                if e.is_retryable() {
                    self.attempts = self.attempts + 1;
                    if self.attempts >= self.max_retries {
                        RetryDecision::Fail(e)
                    } else {
                        RetryDecision::Retry
                    }
                } else if matches!(e, FetchError::ClientRequestError { .. }) {
                    self.attempts = self.attempts + 1;
                    RetryDecision::Fail(e)
                } else {
                    RetryDecision::Fail(e)
                }
            },
        }
    }
}

} // verus!

use vstd::prelude::*;

verus! {

/// The smallest delay before a retry, in milliseconds.
pub const MIN_BACKOFF_MS: u64 = 100;

/// What one delivery attempt of a report came to.
#[derive(Clone, Debug)]
pub enum AttemptOutcome {
    /// The endpoint answered with this HTTP status and body.
    Response { status: u16, body: String },
    /// No answer: connection refused, timeout, name resolution.
    NetworkError { reason: String },
}

/// Why a report could not be delivered.
#[derive(Clone, Debug)]
pub enum ReportError {
    /// The endpoint answered with a status that is not a success, and no retry
    /// is left or owed.
    Rejected { status: u16, body: String },
    /// The endpoint could not be reached on the last attempt.
    Unreachable { reason: String },
}

/// What the client does after an attempt.
#[derive(Clone, Debug)]
pub enum RetryAction {
    Delivered,
    /// Wait this many milliseconds, then make the next attempt.
    RetryAfter(u64),
    Fail(ReportError),
}

pub open spec fn is_success(status: u16) -> bool {
    200 <= status <= 299
}

pub open spec fn is_server_error(status: u16) -> bool {
    500 <= status <= 599
}

/// The next delay: twice the last, saturating at the largest value.
pub open spec fn doubled(delay: u64) -> u64 {
    if delay > u64::MAX / 2 {
        u64::MAX
    } else {
        (2 * delay) as u64
    }
}

/// The action after attempt number `attempt` (counted from one) of at most
/// `max_attempts`, made after waiting `delay` before the retry.
pub open spec fn action_for(attempt: nat, max_attempts: nat, delay: u64, outcome: AttemptOutcome) -> RetryAction {
    match outcome {
        AttemptOutcome::Response { status, body } => {
            if is_success(status) {
                RetryAction::Delivered
            } else if is_server_error(status) && attempt < max_attempts {
                RetryAction::RetryAfter(delay)
            } else {
                RetryAction::Fail(ReportError::Rejected { status, body })
            }
        },
        AttemptOutcome::NetworkError { reason } => {
            if attempt >= max_attempts {
                RetryAction::Fail(ReportError::Unreachable { reason })
            } else {
                RetryAction::RetryAfter(delay)
            }
        },
    }
}

/// The state of one report's delivery: attempts made, the bound on them, and
/// the delay before the next retry.
pub struct RetryPolicy {
    pub max_attempts: usize,
    pub attempts: usize,
    pub delay_ms: u64,
}

impl RetryPolicy {
    /// Another attempt may be made.
    pub open spec fn in_progress(self) -> bool {
        self.attempts < self.max_attempts
    }

    /// A delivery with `max_retries` attempts (at least one) and a first delay of
    /// `retry_backoff_ms` milliseconds (at least the minimum).
    pub fn new(max_retries: usize, retry_backoff_ms: u64) -> (r: RetryPolicy)
        ensures
            r.max_attempts == if max_retries < 1 { 1 } else { max_retries },
            r.attempts == 0,
            r.delay_ms == if retry_backoff_ms < MIN_BACKOFF_MS {
                MIN_BACKOFF_MS
            } else {
                retry_backoff_ms
            },
            r.in_progress(),
    {
        let max_attempts = if max_retries < 1 {
            1
        } else {
            max_retries
        };
        let delay_ms = if retry_backoff_ms < MIN_BACKOFF_MS {
            MIN_BACKOFF_MS
        } else {
            retry_backoff_ms
        };
        RetryPolicy { max_attempts, attempts: 0, delay_ms }
    }

    /// Records the outcome of one attempt and says what to do next. A retry is
    /// owed after a network error or a server error while attempts remain; the
    /// delay doubles after each.
    pub fn on_outcome(&mut self, outcome: AttemptOutcome) -> (r: RetryAction)
        requires
            old(self).in_progress(),
        ensures
            final(self).max_attempts == old(self).max_attempts,
            final(self).attempts == old(self).attempts + 1,
            r == action_for(
                final(self).attempts as nat,
                old(self).max_attempts as nat,
                old(self).delay_ms,
                outcome,
            ),
            r is RetryAfter ==> final(self).delay_ms == doubled(old(self).delay_ms)
                && final(self).in_progress(),
            !(r is RetryAfter) ==> final(self).delay_ms == old(self).delay_ms,
    {
        self.attempts = self.attempts + 1;
        let retry = match &outcome {
            AttemptOutcome::Response { status, body: _ } => {
                !(200 <= *status && *status <= 299) && 500 <= *status && *status <= 599
                    && self.attempts < self.max_attempts
            },
            AttemptOutcome::NetworkError { reason: _ } => self.attempts < self.max_attempts,
        };
        if retry {
            let delay = self.delay_ms;
            self.delay_ms = if delay > u64::MAX / 2 {
                u64::MAX
            } else {
                2 * delay
            };
            return RetryAction::RetryAfter(delay);
        }
        match outcome {
            AttemptOutcome::Response { status, body } => {
                if 200 <= status && status <= 299 {
                    RetryAction::Delivered
                } else {
                    RetryAction::Fail(ReportError::Rejected { status, body })
                }
            },
            AttemptOutcome::NetworkError { reason } => {
                RetryAction::Fail(ReportError::Unreachable { reason })
            },
        }
    }
}

} // verus!

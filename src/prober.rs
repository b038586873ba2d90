//! The readiness prober: polls the backend's health check until it succeeds.
use vstd::prelude::*;

verus! {

/// Pause between two health checks, in milliseconds.
pub const RETRY_DELAY_MS: u64 = 1000;

/// Whether an HTTP status code is a success (2xx).
pub open spec fn is_success(code: u16) -> bool {
    200 <= code && code <= 299
}

/// Whether an HTTP status code is a success (2xx).
pub fn status_is_success(code: u16) -> (r: bool)
    ensures
        r == is_success(code),
{
    200 <= code && code <= 299
}

/// What to do after a health check.
#[derive(Clone, Copy, Debug, PartialEq, Eq, Structural)]
pub enum ProbeAction {
    /// The backend is ready: start serving.
    Ready,
    /// Not ready yet: check again after the pause.
    RetryAfter { millis: u64 },
}

/// Counts the health checks made so far and decides after each one.
#[derive(Clone, Copy, Debug)]
pub struct ReadinessProber {
    pub checks: u64,
}

impl ReadinessProber {
    /// A prober that has made no check yet.
    pub fn new() -> (r: ReadinessProber)
        ensures
            r.checks == 0,
    {
        ReadinessProber { checks: 0 }
    }

    /// Takes the outcome of one health check: the status code, or `None` when
    /// the call failed. Ready exactly on a success status, else retry after
    /// the fixed pause. The count of checks saturates at its maximum.
    pub fn observe(&mut self, status: Option<u16>) -> (r: ProbeAction)
        ensures
            final(self).checks == if old(self).checks < u64::MAX {
                old(self).checks + 1
            } else {
                old(self).checks as int
            },
            r == (if status matches Some(c) && is_success(c) {
                ProbeAction::Ready
            } else {
                ProbeAction::RetryAfter { millis: RETRY_DELAY_MS }
            }),
    {
        if self.checks < u64::MAX {
            self.checks = self.checks + 1;
        }
        match status {
            Some(c) => {
                if status_is_success(c) {
                    ProbeAction::Ready
                } else {
                    ProbeAction::RetryAfter { millis: RETRY_DELAY_MS }
                }
            },
            None => ProbeAction::RetryAfter { millis: RETRY_DELAY_MS },
        }
    }
}

} // verus!

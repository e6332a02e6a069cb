//! Reopening the frame source after it failed to open.
//!
//! The supervisor does not open anything itself. The caller tries to open
//! the source, tells the supervisor how that went and does what it
//! answers: use the source, or wait and try again. It never gives up.

use vstd::prelude::*;

verus! {

/// How long to wait between two attempts, in milliseconds.
pub const BACKOFF_MS: u64 = 1000;

/// What to do after an attempt to open the frame source.
#[derive(Clone, Copy, Debug, PartialEq, Eq, Structural)]
pub enum ReconnectAction {
    /// The source is open: switch it to non-blocking reads and use it.
    Proceed,
    /// The source did not open: wait this long, then try again.
    RetryAfter { millis: u64 },
}

/// Counts the attempts that failed in a row.
#[derive(Clone, Copy, Debug, PartialEq, Eq, Structural)]
pub struct ReconnectSupervisor {
    pub failures: u64,
}

/// The count of failures after one more: it never wraps.
pub open spec fn one_more(failures: u64) -> u64 {
    if failures < u64::MAX {
        (failures + 1) as u64
    } else {
        failures
    }
}

impl ReconnectSupervisor {
    /// A supervisor before the first attempt.
    pub fn new() -> (r: Self)
        ensures
            r.failures == 0,
    {
        ReconnectSupervisor { failures: 0 }
    }

    /// Decides what follows an attempt. Success ends the row of failures.
    /// Every failure, however many came before, is answered with the same
    /// wait and another attempt.
    pub fn on_attempt(&mut self, opened: bool) -> (r: ReconnectAction)
        ensures
            opened ==> r == ReconnectAction::Proceed,
            opened ==> final(self).failures == 0,
            !opened ==> r == (ReconnectAction::RetryAfter { millis: BACKOFF_MS }),
            !opened ==> final(self).failures == one_more(old(self).failures),
    {
        if opened {
            self.failures = 0;
            ReconnectAction::Proceed
        } else {
            if self.failures < u64::MAX {
                self.failures = self.failures + 1;
            }
            ReconnectAction::RetryAfter { millis: BACKOFF_MS }
        }
    }
}

} // verus!

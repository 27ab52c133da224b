//! The file awaiter.
//!
//! Until the target log file can be opened, a session polls for it once a
//! second.  The surrounding program performs the open attempts, the sleeps
//! and the clock reads; the decisions — whether to emit the one-time
//! waiting notice and whether the appearance timeout has expired — are
//! made here.  Timestamps are wall-clock seconds; the timeout verdict is
//! evaluated on the time sampled after each sleep, so a bound of zero
//! expires on the very first failed poll.

use vstd::prelude::*;
use crate::errors::TailError;

verus! {

/// Whether a wait that began at `start_time` has outlived `appear_timeout`
/// by time `now`.
pub open spec fn appearance_expired(start_time: int, appear_timeout: int, now: int) -> bool {
    now - start_time > appear_timeout
}

/// The waiting state of one session: when the wait began, its bound, and
/// whether the one-time notice has been emitted.
pub struct Awaiter {
    pub start_time: i64,
    pub appear_timeout: i64,
    pub notice_printed: bool,
}

impl Awaiter {
    /// Begins a wait at `start_time` bounded by `appear_timeout` seconds.
    pub fn new(start_time: i64, appear_timeout: i64) -> (a: Awaiter)
        ensures
            a.start_time == start_time,
            a.appear_timeout == appear_timeout,
            !a.notice_printed,
    {
        Awaiter { start_time, appear_timeout, notice_printed: false }
    }

    /// Called when a poll finds the file still absent: says whether to
    /// emit the waiting notice now.  The notice is emitted on the first
    /// absent poll and never again, to avoid flooding the session output.
    pub fn note_absent(&mut self) -> (print_notice: bool)
        ensures
            print_notice == !old(self).notice_printed,
            final(self).notice_printed,
            final(self).start_time == old(self).start_time,
            final(self).appear_timeout == old(self).appear_timeout,
    {
        let print_notice = !self.notice_printed;
        self.notice_printed = true;
        print_notice
    }

    /// The timeout verdict after a failed poll, with `now` sampled after
    /// the poll's sleep: `AppearanceTimeout` exactly when more than
    /// `appear_timeout` seconds have passed since the wait began, and
    /// leave to keep polling otherwise.
    pub fn check_appearance(&self, now: i64) -> (r: Result<(), TailError>)
        requires
            self.start_time <= now,
            now - self.start_time <= i64::MAX,
        ensures
            r == (if appearance_expired(self.start_time as int, self.appear_timeout as int,
                now as int) {
                Result::<(), TailError>::Err(TailError::AppearanceTimeout)
            } else {
                Result::<(), TailError>::Ok(())
            }),
    {
        if now - self.start_time > self.appear_timeout {
            Err(TailError::AppearanceTimeout)
        } else {
            Ok(())
        }
    }
}

/// An appearance timeout of zero (or any bound the elapsed time has
/// already overtaken) expires on the first poll after a full second has
/// passed: awaiting a file that never appears fails instead of hanging.
pub proof fn lemma_zero_timeout_expires(start_time: int, now: int)
    requires
        now > start_time,
    ensures
        appearance_expired(start_time, 0, now),
{
}

/// In the unbounded configuration the appearance timeout never expires:
/// the wait ends only when the file appears.
pub proof fn lemma_unbounded_never_expires(start_time: int, now: int)
    requires
        now - start_time <= i64::MAX,
    ensures
        !appearance_expired(start_time, i64::MAX as int, now),
{
}

} // verus!

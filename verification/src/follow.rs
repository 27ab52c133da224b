//! The follow loop's liveness tracking.
//!
//! Once the tail window has been printed, a session repeatedly attempts a
//! line read at the current end of the file.  Reaching the end of the
//! bytes written so far is never a reason to stop — more may be appended;
//! the only terminal conditions are a data-stall timeout and a real read
//! error.  The surrounding program performs the reads, prints, sleeps and
//! clock reads; the decision after each attempt is made here, against a
//! liveness clock that only a successful read advances.

use vstd::prelude::*;
use crate::errors::TailError;

verus! {

/// Whether a session whose liveness clock shows `last_updated` has
/// stalled for more than `stall_timeout` seconds by time `now`.
pub open spec fn stalled(last_updated: int, stall_timeout: int, now: int) -> bool {
    now - last_updated > stall_timeout
}

/// What one follow iteration does next.
#[derive(PartialEq, Eq, Structural, Debug)]
pub enum FollowAction {
    /// New bytes arrived: print them immediately, without added delay.
    PrintLine,
    /// No new bytes, but the stall window is still open: sleep for the
    /// one-second poll interval and try again.
    Wait,
}

/// The liveness state of one follow loop: when data last arrived and how
/// long a silence the session tolerates.
pub struct Follower {
    pub last_updated: i64,
    pub stall_timeout: i64,
}

impl Follower {
    /// Begins following at time `now`; the stall window is measured from
    /// loop start until the first byte arrives.
    pub fn new(now: i64, stall_timeout: i64) -> (f: Follower)
        ensures
            f.last_updated == now,
            f.stall_timeout == stall_timeout,
    {
        Follower { last_updated: now, stall_timeout }
    }

    /// The decision after one read attempt that returned `bytes_read`
    /// bytes, with `now` sampled just after the read.  Data resets the
    /// liveness clock and is printed; silence within the stall window
    /// waits out the poll interval; silence beyond it ends the session
    /// with `StallTimeout`.  The liveness clock never moves backward.
    pub fn on_read(&mut self, bytes_read: usize, now: i64) -> (r: Result<FollowAction, TailError>)
        requires
            old(self).last_updated <= now,
            now - old(self).last_updated <= i64::MAX,
        ensures
            final(self).stall_timeout == old(self).stall_timeout,
            final(self).last_updated >= old(self).last_updated,
            bytes_read > 0 ==> r == Result::<FollowAction, TailError>::Ok(FollowAction::PrintLine)
                && final(self).last_updated == now,
            bytes_read == 0 ==> final(self).last_updated == old(self).last_updated,
            bytes_read == 0 && stalled(old(self).last_updated as int,
                old(self).stall_timeout as int, now as int) ==> r == Result::<
                FollowAction,
                TailError,
            >::Err(TailError::StallTimeout),
            bytes_read == 0 && !stalled(old(self).last_updated as int,
                old(self).stall_timeout as int, now as int) ==> r == Result::<
                FollowAction,
                TailError,
            >::Ok(FollowAction::Wait),
    {
        if bytes_read > 0 {
            self.last_updated = now;
            Ok(FollowAction::PrintLine)
        } else if now - self.last_updated > self.stall_timeout {
            Err(TailError::StallTimeout)
        } else {
            Ok(FollowAction::Wait)
        }
    }
}

/// A successful read resets the liveness clock: after a line arrives at
/// time `t`, the session does not stall at any time within the stall
/// window measured from `t`, no matter how much of the previous window
/// had already elapsed before the line came.
pub proof fn lemma_read_resets_clock(stall_timeout: int, t: int, later: int)
    requires
        later - t <= stall_timeout,
    ensures
        !stalled(t, stall_timeout, later),
{
}

/// A static file stalls promptly: with a stall timeout of one second, the
/// first poll at least two seconds after the last data (and with the
/// one-second poll interval there is one) reports the stall.
pub proof fn lemma_static_file_stalls(last_updated: int, now: int)
    requires
        now - last_updated >= 2,
    ensures
        stalled(last_updated, 1, now),
{
}

} // verus!

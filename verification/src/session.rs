//! Resolving the two timeout parameters of a monitoring session.

use vstd::prelude::*;

verus! {

/// Seconds used for either timeout when the caller gives none.
pub const DEFAULT_TIMEOUT_S: u32 = 120;

/// The two independent timeout policies of one monitoring session, in
/// seconds.  `appear_timeout` bounds the wait for the target file to be
/// created; `stall_timeout` bounds the time without new bytes once the
/// file is being followed.  Both are fixed for the session's lifetime.
pub struct SessionConfig {
    pub appear_timeout: i64,
    pub stall_timeout: i64,
}

/// What the appearance timeout resolves to: the given seconds, the default,
/// or an effectively infinite bound when the unbounded flag is set.
pub open spec fn resolved_appear_timeout(appear_timeout_s: Option<u32>, unbounded: bool) -> int {
    if unbounded {
        i64::MAX as int
    } else {
        match appear_timeout_s {
            Some(t) => t as int,
            None => DEFAULT_TIMEOUT_S as int,
        }
    }
}

/// What the stall timeout resolves to: the given seconds or the default.
pub open spec fn resolved_stall_timeout(stall_timeout_s: Option<u32>) -> int {
    match stall_timeout_s {
        Some(t) => t as int,
        None => DEFAULT_TIMEOUT_S as int,
    }
}

/// Resolves the session inputs to the two concrete timeouts.  An absent
/// value defaults to `DEFAULT_TIMEOUT_S`; the `unbounded_appearance` flag
/// (a distinct configuration state, not a sentinel input value) makes the
/// appearance timeout effectively infinite.
pub fn session_config(
    appear_timeout_s: Option<u32>,
    stall_timeout_s: Option<u32>,
    unbounded_appearance: bool,
) -> (c: SessionConfig)
    ensures
        c.appear_timeout == resolved_appear_timeout(appear_timeout_s, unbounded_appearance),
        c.stall_timeout == resolved_stall_timeout(stall_timeout_s),
{
    let appear_timeout: i64 = if unbounded_appearance {
        i64::MAX
    } else {
        match appear_timeout_s {
            Some(t) => t as i64,
            None => DEFAULT_TIMEOUT_S as i64,
        }
    };
    let stall_timeout: i64 = match stall_timeout_s {
        Some(t) => t as i64,
        None => DEFAULT_TIMEOUT_S as i64,
    };
    SessionConfig { appear_timeout, stall_timeout }
}

} // verus!

use slurmtail::Awaiter;
use slurmtail::FollowAction;
use slurmtail::Follower;
use slurmtail::TailError;
use slurmtail::session_config;
use slurmtail::DEFAULT_TIMEOUT_S;

#[test]
fn config_defaults_to_120_seconds() {
    let c = session_config(None, None, false);
    assert_eq!(c.appear_timeout, 120);
    assert_eq!(c.stall_timeout, 120);
    assert_eq!(DEFAULT_TIMEOUT_S, 120);
}

#[test]
fn config_keeps_given_timeouts() {
    let c = session_config(Some(5), Some(7), false);
    assert_eq!(c.appear_timeout, 5);
    assert_eq!(c.stall_timeout, 7);
}

#[test]
fn config_unbounded_appearance_is_effectively_infinite() {
    let c = session_config(Some(5), Some(7), true);
    assert_eq!(c.appear_timeout, i64::MAX);
    assert_eq!(c.stall_timeout, 7);
}

#[test]
fn zero_appearance_timeout_fails_without_hanging() {
    // A poll one second in (the first one, after the fixed sleep) already
    // exceeds a zero timeout: the await fails instead of waiting forever.
    let a = Awaiter::new(1_000, 0);
    assert_eq!(a.check_appearance(1_001), Err(TailError::AppearanceTimeout));
}

#[test]
fn appearance_within_bound_keeps_polling() {
    let a = Awaiter::new(1_000, 120);
    assert_eq!(a.check_appearance(1_120), Ok(()));
    assert_eq!(a.check_appearance(1_121), Err(TailError::AppearanceTimeout));
}

#[test]
fn unbounded_appearance_never_times_out() {
    let a = Awaiter::new(0, i64::MAX);
    assert_eq!(a.check_appearance(i64::MAX), Ok(()));
}

#[test]
fn waiting_notice_is_printed_once() {
    let mut a = Awaiter::new(0, 120);
    assert!(a.note_absent());
    assert!(!a.note_absent());
    assert!(!a.note_absent());
}

#[test]
fn data_resets_the_liveness_clock() {
    // Stall window of 10 s from t=1000.  A line arrives at t=1009, just
    // inside the window; a quiet poll at t=1019 would have been past the
    // first window but is within the reset one, so the loop keeps going.
    let mut f = Follower::new(1_000, 10);
    assert_eq!(f.on_read(7, 1_009), Ok(FollowAction::PrintLine));
    assert_eq!(f.on_read(0, 1_019), Ok(FollowAction::Wait));
    assert_eq!(f.on_read(0, 1_020), Err(TailError::StallTimeout));
}

#[test]
fn static_file_stalls_within_two_seconds() {
    // With stall_timeout = 1 and one-second polls, the poll two seconds
    // after the last data already exceeds the window.
    let mut f = Follower::new(1_000, 1);
    assert_eq!(f.on_read(0, 1_001), Ok(FollowAction::Wait));
    assert_eq!(f.on_read(0, 1_002), Err(TailError::StallTimeout));
}

#[test]
fn end_of_current_bytes_is_not_terminal() {
    // Quiet polls inside the window only wait; reaching the current end
    // of the file never ends the session by itself.
    let mut f = Follower::new(0, 120);
    for now in 1..=120 {
        assert_eq!(f.on_read(0, now), Ok(FollowAction::Wait));
    }
    assert_eq!(f.on_read(0, 121), Err(TailError::StallTimeout));
}

//! The error taxonomy of a monitoring session.

use vstd::prelude::*;

verus! {

/// Every way a monitoring session or a resume attempt can fail.
///
/// The two timeout variants and the two marker variants are produced by the
/// verified decision functions; `IoError` and `ClockError` stand for
/// failures of the surrounding program's file and clock access, which the
/// library never performs itself.
#[derive(Clone, Copy, PartialEq, Eq, Structural, Debug)]
pub enum TailError {
    /// The target file never appeared within the appearance timeout.
    AppearanceTimeout,
    /// The target file stopped growing for longer than the stall timeout.
    StallTimeout,
    /// A resume was requested but no marker is present.
    MarkerNotFound,
    /// A marker is present but the file it names no longer exists.
    MarkerStale,
    /// A filesystem failure not classified above.
    IoError,
    /// Wall-clock time could not be obtained.
    ClockError,
}

} // verus!

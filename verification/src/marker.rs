//! The resume marker store.
//!
//! A monitoring session records the path of the followed log file in a
//! small marker file inside a working directory, so a later session can
//! reattach to the same target.  The store is modelled here as the
//! marker's contents — present or absent — and every decision about it is
//! verified; the surrounding program only copies this state from and to
//! the directory and says whether the recorded target currently exists.

use vstd::prelude::*;
use crate::errors::TailError;
use crate::text::trimmed;
use crate::text::trim_bytes;
use crate::text::copy_bytes;
use crate::text::is_space;
use crate::text::lemma_trimmed_clean;

verus! {

/// The marker state of one working directory: the raw bytes of the marker
/// file when one exists.
pub struct MarkerStore {
    pub marker: Option<Vec<u8>>,
}

/// What `load` yields from a marker state: the trimmed recorded path when
/// a marker exists and its target still does; `MarkerNotFound` with no
/// marker; `MarkerStale` when the recorded target is gone.
pub open spec fn load_result(marker: Option<Seq<u8>>, target_exists: bool) -> Result<
    Seq<u8>,
    TailError,
> {
    match marker {
        Option::None => Result::Err(TailError::MarkerNotFound),
        Option::Some(c) => if target_exists {
            Result::Ok(trimmed(c))
        } else {
            Result::Err(TailError::MarkerStale)
        },
    }
}

/// The marker state after `save`: the saved path, whatever was there.
pub open spec fn saved_marker(marker: Option<Seq<u8>>, path: Seq<u8>) -> Option<Seq<u8>> {
    Option::Some(path)
}

/// The marker state after `clear`: no marker, whatever was there.
pub open spec fn cleared_marker(marker: Option<Seq<u8>>) -> Option<Seq<u8>> {
    Option::None
}

/// A `Result` of bytes, seen abstractly.
pub open spec fn result_view(r: Result<Vec<u8>, TailError>) -> Result<Seq<u8>, TailError> {
    match r {
        Result::Ok(v) => Result::Ok(v@),
        Result::Err(e) => Result::Err(e),
    }
}

impl MarkerStore {
    /// The marker contents, seen abstractly.
    pub open spec fn marker_view(&self) -> Option<Seq<u8>> {
        match self.marker {
            Option::Some(c) => Option::Some(c@),
            Option::None => Option::None,
        }
    }

    /// A directory with no marker.
    pub fn new() -> (s: MarkerStore)
        ensures
            s.marker_view() == Option::<Seq<u8>>::None,
    {
        MarkerStore { marker: None }
    }

    /// The marker read from a directory: the marker file's bytes, or
    /// `None` when the file does not exist.
    pub fn from_contents(contents: Option<Vec<u8>>) -> (s: MarkerStore)
        ensures
            s.marker_view() == (match contents {
                Option::Some(c) => Option::Some(c@),
                Option::None => Option::<Seq<u8>>::None,
            }),
    {
        MarkerStore { marker: contents }
    }

    /// The raw bytes to be written to the marker file, when one exists.
    pub fn contents(&self) -> (r: Option<Vec<u8>>)
        ensures
            (match r {
                Option::Some(c) => self.marker_view() == Option::Some(c@),
                Option::None => self.marker_view() is None,
            }),
    {
        match &self.marker {
            Some(c) => Some(copy_bytes(c)),
            None => None,
        }
    }

    /// Records `path` as the followed log file, overwriting any earlier
    /// marker; its string form is stored verbatim.
    pub fn save(&mut self, path: &Vec<u8>)
        ensures
            final(self).marker_view() == saved_marker(old(self).marker_view(), path@),
    {
        self.marker = Some(copy_bytes(path));
    }

    /// Reads the recorded path back.  `target_exists` must say whether the
    /// file named by the trimmed marker contents currently exists, as only
    /// the surrounding program can observe; staleness is thereby detected
    /// at read time.
    pub fn load(&self, target_exists: bool) -> (r: Result<Vec<u8>, TailError>)
        ensures
            result_view(r) == load_result(self.marker_view(), target_exists),
    {
        match &self.marker {
            None => Err(TailError::MarkerNotFound),
            Some(c) => {
                if target_exists {
                    Ok(trim_bytes(c))
                } else {
                    Err(TailError::MarkerStale)
                }
            },
        }
    }

    /// Removes the marker if present; absence is not an error.  Returns
    /// whether a marker was there to remove, so the caller can report
    /// which case occurred.
    pub fn clear(&mut self) -> (removed: bool)
        ensures
            final(self).marker_view() == cleared_marker(old(self).marker_view()),
            removed == (old(self).marker_view() is Some),
    {
        let removed = self.marker.is_some();
        self.marker = None;
        removed
    }
}

/// Marker round trip: saving a path and loading it back while the target
/// still exists yields the path again (exactly, whenever it carries no
/// surrounding whitespace); deleting the target before the load makes the
/// marker stale instead.
pub proof fn lemma_marker_round_trip(m: Option<Seq<u8>>, p: Seq<u8>)
    requires
        p.len() > 0 ==> !is_space(p[0]),
        p.len() > 0 ==> !is_space(p[p.len() - 1]),
    ensures
        load_result(saved_marker(m, p), true) == Result::<Seq<u8>, TailError>::Ok(p),
        load_result(saved_marker(m, p), false) == Result::<Seq<u8>, TailError>::Err(
            TailError::MarkerStale,
        ),
{
    lemma_trimmed_clean(p);
}

/// Clearing leaves nothing to resume from: after a `clear` — whatever the
/// store held, for instance right after a `save` — a load reports
/// `MarkerNotFound`; and clearing an empty store merely reports that no
/// marker was found, which is not an error.
pub proof fn lemma_clear_then_load(m: Option<Seq<u8>>, target_exists: bool)
    ensures
        load_result(cleared_marker(m), target_exists) == Result::<Seq<u8>, TailError>::Err(
            TailError::MarkerNotFound,
        ),
{
}

} // verus!

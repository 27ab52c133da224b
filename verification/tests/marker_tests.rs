use slurmtail::MarkerStore;
use slurmtail::TailError;
use slurmtail::trim_bytes;

#[test]
fn round_trip_returns_saved_path() {
    let mut store = MarkerStore::new();
    store.save(&b"/tmp/job.123.log".to_vec());
    let loaded = store.load(true);
    assert_eq!(loaded, Ok(b"/tmp/job.123.log".to_vec()));
}

#[test]
fn load_trims_surrounding_whitespace() {
    let store = MarkerStore::from_contents(Some(b"  /tmp/job.123.log\n".to_vec()));
    let loaded = store.load(true);
    assert_eq!(loaded, Ok(b"/tmp/job.123.log".to_vec()));
}

#[test]
fn missing_target_makes_marker_stale() {
    let mut store = MarkerStore::new();
    store.save(&b"/tmp/job.123.log".to_vec());
    let loaded = store.load(false);
    assert_eq!(loaded, Err(TailError::MarkerStale));
}

#[test]
fn load_without_marker_reports_not_found() {
    let store = MarkerStore::new();
    assert_eq!(store.load(true), Err(TailError::MarkerNotFound));
    assert_eq!(store.load(false), Err(TailError::MarkerNotFound));
}

#[test]
fn clear_without_marker_reports_nothing_to_remove() {
    let mut store = MarkerStore::new();
    let removed = store.clear();
    assert!(!removed);
    assert_eq!(store.load(true), Err(TailError::MarkerNotFound));
}

#[test]
fn clear_after_save_removes_the_marker() {
    let mut store = MarkerStore::new();
    store.save(&b"/tmp/job.123.log".to_vec());
    let removed = store.clear();
    assert!(removed);
    assert_eq!(store.load(true), Err(TailError::MarkerNotFound));
}

#[test]
fn save_overwrites_an_earlier_marker() {
    let mut store = MarkerStore::new();
    store.save(&b"/tmp/old.log".to_vec());
    store.save(&b"/tmp/new.log".to_vec());
    assert_eq!(store.load(true), Ok(b"/tmp/new.log".to_vec()));
}

#[test]
fn marker_contents_are_stored_verbatim() {
    let mut store = MarkerStore::new();
    store.save(&b"relative/path.log".to_vec());
    assert_eq!(store.contents(), Some(b"relative/path.log".to_vec()));
}

#[test]
fn trim_bytes_handles_edges() {
    assert_eq!(trim_bytes(&b"".to_vec()), b"".to_vec());
    assert_eq!(trim_bytes(&b" \t\r\n".to_vec()), b"".to_vec());
    assert_eq!(trim_bytes(&b"x".to_vec()), b"x".to_vec());
    assert_eq!(trim_bytes(&b"\ta b\r\n".to_vec()), b"a b".to_vec());
}

use slurmtail::FollowAction;
use slurmtail::Follower;
use slurmtail::locate_start;

#[test]
fn end_to_end_tail_then_follow() {
    // A log of 200 lines "a\n": the tail window is exactly lines 51-200,
    // and a line appended afterwards is the next thing the follow loop
    // prints.
    let mut data = Vec::new();
    for _ in 0..200 {
        data.extend_from_slice(b"a\n");
    }
    let start = locate_start(&data);
    assert_eq!(start, 100);
    let shown = data[start..].to_vec();
    assert_eq!(shown.len(), 300);
    assert_eq!(shown.iter().filter(|&&b| b == b'\n').count(), 150);

    let mut f = Follower::new(10, 120);
    // Quiet polls at the current end of file only wait.
    assert_eq!(f.on_read(0, 11), Ok(FollowAction::Wait));
    // "b\n" is appended: the next read returns its two bytes and the
    // decision is to print them immediately.
    data.extend_from_slice(b"b\n");
    let appended = &data[400..];
    assert_eq!(appended, b"b\n");
    assert_eq!(f.on_read(appended.len(), 12), Ok(FollowAction::PrintLine));
}

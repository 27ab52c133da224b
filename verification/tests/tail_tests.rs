use slurmtail::locate_start;

fn lines_of(n: usize, body: &str) -> Vec<u8> {
    let mut v = Vec::new();
    for _ in 0..n {
        v.extend_from_slice(body.as_bytes());
    }
    v
}

#[test]
fn empty_file_starts_at_zero() {
    let data: Vec<u8> = Vec::new();
    assert_eq!(locate_start(&data), 0);
}

#[test]
fn short_file_starts_at_zero() {
    let data = b"one\ntwo\nthree\n".to_vec();
    assert_eq!(locate_start(&data), 0);
}

#[test]
fn single_line_without_newline_starts_at_zero() {
    let data = b"a single unterminated line".to_vec();
    assert_eq!(locate_start(&data), 0);
}

#[test]
fn file_of_149_lines_starts_at_zero() {
    let data = lines_of(149, "a\n");
    assert_eq!(locate_start(&data), 0);
}

#[test]
fn file_of_exactly_150_lines_starts_at_zero() {
    let data = lines_of(150, "a\n");
    assert_eq!(locate_start(&data), 0);
}

#[test]
fn file_of_151_lines_skips_the_first() {
    let data = lines_of(151, "a\n");
    // The last 150 lines begin with the second line, at byte 2.
    assert_eq!(locate_start(&data), 2);
}

#[test]
fn file_of_200_lines_shows_lines_51_to_200() {
    let data = lines_of(200, "a\n");
    let start = locate_start(&data);
    assert_eq!(start, 100);
    let tail = &data[start..];
    assert_eq!(tail.iter().filter(|&&b| b == b'\n').count(), 150);
    assert_eq!(tail.len(), 300);
}

#[test]
fn unterminated_final_line_counts_as_one() {
    // 199 complete lines and one unterminated: 200 lines in all, so the
    // tail window starts at line 51, showing 149 complete lines plus the
    // partial one.
    let mut data = lines_of(199, "a\n");
    data.push(b'b');
    assert_eq!(locate_start(&data), 100);
}

#[test]
fn distinct_lines_keep_their_content() {
    let mut data = Vec::new();
    for i in 0..200 {
        data.extend_from_slice(format!("line {}\n", i).as_bytes());
    }
    let start = locate_start(&data);
    let tail = String::from_utf8(data[start..].to_vec()).unwrap();
    assert!(tail.starts_with("line 50\n"));
    assert!(tail.ends_with("line 199\n"));
    assert_eq!(tail.lines().count(), 150);
}

//! The tail-window locator.
//!
//! Given the bytes of a log file as it stood when it was opened,
//! `locate_start` computes the byte offset from which streaming should
//! begin, so that at most the last `TAIL_LINES` lines are shown initially.
//! The offset is found by a single backward scan counting newline bytes;
//! a newline that is the very last byte of the file only terminates the
//! final line and does not begin a new one, so it is not counted.

use vstd::prelude::*;

verus! {

/// How many lines of an existing file are shown when following starts.
pub const TAIL_LINES: u64 = 150;

/// The newline byte that delimits lines.
pub const NEWLINE: u8 = 10;

/// Number of newline bytes of `s` in the index range `[lo, hi)`.
pub open spec fn nl_between(s: Seq<u8>, lo: int, hi: int) -> nat
    decreases hi - lo,
{
    if hi <= lo {
        0
    } else {
        nl_between(s, lo, hi - 1) + (if s[hi - 1] == NEWLINE {
            1nat
        } else {
            0nat
        })
    }
}

/// Number of displayed lines of a file: one for each line start.  A line
/// starts at offset 0 and after every newline that is not the file's very
/// last byte (a trailing newline terminates the last line instead of
/// opening an empty one, as it does for a reader of the log).
pub open spec fn line_count(s: Seq<u8>) -> nat {
    if s.len() == 0 {
        0
    } else {
        1 + nl_between(s, 0, s.len() - 1)
    }
}

/// Backward scan over `s[i - 1], s[i - 2], ..., s[0]`: the offset one past
/// the `need`-th newline encountered, or 0 when fewer than `need` newlines
/// lie below index `i`.
pub open spec fn tail_scan(s: Seq<u8>, i: int, need: nat) -> int
    decreases i,
{
    if i <= 0 {
        0
    } else if s[i - 1] == NEWLINE {
        if need <= 1 {
            i
        } else {
            tail_scan(s, i - 1, (need - 1) as nat)
        }
    } else {
        tail_scan(s, i - 1, need)
    }
}

/// Where streaming a file with bytes `s` should begin: one past the
/// `TAIL_LINES`-th newline from the end (the final byte not counting),
/// or 0 when the file has no more than `TAIL_LINES` lines.
pub open spec fn tail_start(s: Seq<u8>) -> int {
    if s.len() == 0 {
        0
    } else {
        tail_scan(s, s.len() - 1, TAIL_LINES as nat)
    }
}

/// Returns the byte offset from which reading `data` forward shows at most
/// the last `TAIL_LINES` lines: the whole file when it has no more lines
/// than that (offset 0, also for an empty file), and otherwise the start
/// of its `TAIL_LINES`-th-from-last line.
pub fn locate_start(data: &Vec<u8>) -> (r: usize)
    ensures
        r == tail_start(data@),
        r <= data.len(),
{
    let len = data.len();
    if len == 0 {
        return 0;
    }
    let mut i: usize = len - 1;
    let mut found: u64 = 0;
    while i > 0
        invariant
            len == data@.len(),
            1 <= len,
            i <= len - 1,
            found < TAIL_LINES,
            tail_scan(data@, i as int, (TAIL_LINES - found) as nat) == tail_start(data@),
        decreases i,
    {
        let j = i - 1;
        if data[j] == NEWLINE {
            if found == TAIL_LINES - 1 {
                assert(tail_scan(data@, i as int, (TAIL_LINES - found) as nat) == i as int);
                return j + 1;
            }
            found = found + 1;
        }
        i = j;
    }
    assert(tail_scan(data@, 0, (TAIL_LINES - found) as nat) == 0);
    0
}

/// The scan finds no start when fewer than `need` newlines lie below `i`.
proof fn lemma_tail_scan_short(s: Seq<u8>, i: int, need: nat)
    requires
        0 <= i,
        nl_between(s, 0, i) < need,
    ensures
        tail_scan(s, i, need) == 0,
    decreases i,
{
    if i > 0 {
        if s[i - 1] == NEWLINE {
            lemma_tail_scan_short(s, i - 1, (need - 1) as nat);
        } else {
            lemma_tail_scan_short(s, i - 1, need);
        }
    }
}

/// With at least `need` newlines below `i`, the scan returns the offset
/// one past a newline, with exactly `need - 1` newlines left between it
/// and `i`.
proof fn lemma_tail_scan_found(s: Seq<u8>, i: int, need: nat)
    requires
        0 <= i <= s.len(),
        1 <= need,
        nl_between(s, 0, i) >= need,
    ensures
        1 <= tail_scan(s, i, need) <= i,
        s[tail_scan(s, i, need) - 1] == NEWLINE,
        nl_between(s, tail_scan(s, i, need), i) == need - 1,
    decreases i,
{
    if i > 0 {
        if s[i - 1] == NEWLINE {
            if need > 1 {
                lemma_tail_scan_found(s, i - 1, (need - 1) as nat);
                lemma_nl_between_split(s, tail_scan(s, i, need), i - 1, i);
            }
        } else {
            lemma_tail_scan_found(s, i - 1, need);
            lemma_nl_between_split(s, tail_scan(s, i, need), i - 1, i);
        }
    }
}

/// Counting newlines over `[lo, hi)` splits at any `mid` between.
proof fn lemma_nl_between_split(s: Seq<u8>, lo: int, mid: int, hi: int)
    requires
        lo <= mid <= hi,
    ensures
        nl_between(s, lo, hi) == nl_between(s, lo, mid) + nl_between(s, mid, hi),
    decreases hi - mid,
{
    if mid < hi {
        lemma_nl_between_split(s, lo, mid, hi - 1);
    }
}

/// Newline counts are unchanged by shifting into a suffix.
proof fn lemma_nl_between_skip(s: Seq<u8>, o: int, m: int)
    requires
        0 <= o <= s.len(),
        0 <= m,
        o + m <= s.len(),
    ensures
        nl_between(s.skip(o), 0, m) == nl_between(s, o, o + m),
    decreases m,
{
    if m > 0 {
        lemma_nl_between_skip(s, o, m - 1);
    }
}

/// A file with fewer than `TAIL_LINES` lines is shown whole: its tail
/// window starts at offset 0.
pub proof fn lemma_short_file_starts_at_zero(s: Seq<u8>)
    requires
        line_count(s) < TAIL_LINES,
    ensures
        tail_start(s) == 0,
{
    if s.len() > 0 {
        lemma_tail_scan_short(s, s.len() - 1, TAIL_LINES as nat);
    }
}

/// An empty file has tail window offset 0, and following from there shows
/// nothing until bytes are appended.
pub proof fn lemma_empty_file_shows_nothing(s: Seq<u8>)
    requires
        s.len() == 0,
    ensures
        tail_start(s) == 0,
        s.skip(tail_start(s)).len() == 0,
{
}

/// For a file with at least `TAIL_LINES` lines, the tail window is exactly
/// its last `TAIL_LINES` lines: the start offset lies on a line start, and
/// the suffix of the file from that offset has exactly `TAIL_LINES` lines
/// and is never longer.
pub proof fn lemma_tail_window_is_last_lines(s: Seq<u8>)
    requires
        line_count(s) >= TAIL_LINES,
    ensures
        0 <= tail_start(s) <= s.len(),
        tail_start(s) == 0 || s[tail_start(s) - 1] == NEWLINE,
        line_count(s.skip(tail_start(s))) == TAIL_LINES,
{
    let o = tail_start(s);
    let last = s.len() - 1;
    if nl_between(s, 0, last) < TAIL_LINES {
        lemma_tail_scan_short(s, last, TAIL_LINES as nat);
        assert(s.skip(0) =~= s);
    } else {
        lemma_tail_scan_found(s, last, TAIL_LINES as nat);
        lemma_nl_between_skip(s, o, last - o);
        assert(s.skip(o).len() == s.len() - o);
        assert(line_count(s.skip(o)) == 1 + nl_between(s.skip(o), 0, s.len() - o - 1));
    }
}

} // verus!

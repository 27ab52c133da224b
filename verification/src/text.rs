//! Byte-level text helpers shared by the marker store and the script
//! parser: whitespace classification, trimming, prefix tests and copying.

use vstd::prelude::*;

verus! {

/// The whitespace bytes trimmed from marker contents and separating the
/// tokens of a directive line: space, tab, line feed and carriage return.
pub open spec fn is_space(b: u8) -> bool {
    b == 32 || b == 9 || b == 10 || b == 13
}

/// Exec test for `is_space`.
pub fn byte_is_space(b: u8) -> (r: bool)
    ensures
        r == is_space(b),
{
    b == 32 || b == 9 || b == 10 || b == 13
}

/// `s` without its leading whitespace.
pub open spec fn trim_front(s: Seq<u8>) -> Seq<u8>
    decreases s.len(),
{
    if s.len() > 0 && is_space(s[0]) {
        trim_front(s.skip(1))
    } else {
        s
    }
}

/// `s` without its trailing whitespace.
pub open spec fn trim_back(s: Seq<u8>) -> Seq<u8>
    decreases s.len(),
{
    if s.len() > 0 && is_space(s[s.len() - 1]) {
        trim_back(s.take(s.len() - 1))
    } else {
        s
    }
}

/// `s` without surrounding whitespace.
pub open spec fn trimmed(s: Seq<u8>) -> Seq<u8> {
    trim_back(trim_front(s))
}

/// A sequence free of surrounding whitespace trims to itself.
pub proof fn lemma_trimmed_clean(s: Seq<u8>)
    requires
        s.len() > 0 ==> !is_space(s[0]),
        s.len() > 0 ==> !is_space(s[s.len() - 1]),
    ensures
        trimmed(s) == s,
{
}

/// Copies the byte range `[a, b)` of `s` into a fresh vector.
pub fn copy_range(s: &Vec<u8>, a: usize, b: usize) -> (r: Vec<u8>)
    requires
        a <= b <= s.len(),
    ensures
        r@ == s@.subrange(a as int, b as int),
{
    let mut r: Vec<u8> = Vec::new();
    let mut k: usize = a;
    while k < b
        invariant
            a <= k <= b <= s.len(),
            r@ == s@.subrange(a as int, k as int),
        decreases b - k,
    {
        r.push(s[k]);
        assert(s@.subrange(a as int, k as int).push(s@[k as int]) =~= s@.subrange(
            a as int,
            k + 1 as int,
        ));
        k = k + 1;
    }
    r
}

/// Copies a whole byte vector.
pub fn copy_bytes(s: &Vec<u8>) -> (r: Vec<u8>)
    ensures
        r@ == s@,
{
    let r = copy_range(s, 0, s.len());
    assert(s@.subrange(0, s.len() as int) =~= s@);
    r
}

/// Whether `p` is a prefix of `s`.
pub open spec fn is_prefix(p: Seq<u8>, s: Seq<u8>) -> bool {
    p.len() <= s.len() && s.take(p.len() as int) == p
}

/// Exec test for `is_prefix`.
pub fn has_prefix(s: &Vec<u8>, p: &Vec<u8>) -> (r: bool)
    ensures
        r == is_prefix(p@, s@),
{
    if p.len() > s.len() {
        assert(!is_prefix(p@, s@));
        return false;
    }
    let mut k: usize = 0;
    while k < p.len()
        invariant
            k <= p@.len() <= s@.len(),
            forall|j: int| 0 <= j < k ==> s@[j] == p@[j],
        decreases p.len() - k,
    {
        if s[k] != p[k] {
            assert(s@.take(p@.len() as int)[k as int] != p@[k as int]);
            return false;
        }
        k = k + 1;
    }
    assert(s@.take(p@.len() as int) =~= p@);
    true
}

/// Removes surrounding whitespace, returning the trimmed copy.
pub fn trim_bytes(s: &Vec<u8>) -> (r: Vec<u8>)
    ensures
        r@ == trimmed(s@),
{
    let len = s.len();
    let mut a: usize = 0;
    assert(s@.skip(0) =~= s@);
    while a < len && byte_is_space(s[a])
        invariant
            a <= len == s@.len(),
            trim_front(s@.skip(a as int)) == trim_front(s@),
        decreases len - a,
    {
        assert(s@.skip(a as int).skip(1) =~= s@.skip(a + 1));
        a = a + 1;
    }
    let ghost t = s@.skip(a as int);
    assert(trim_front(s@) == t);
    let mut b: usize = len - a;
    assert(t.take(b as int) =~= t);
    while b > 0 && byte_is_space(s[a + b - 1])
        invariant
            a + b <= len == s@.len(),
            t == s@.skip(a as int),
            trim_back(t.take(b as int)) == trim_back(t),
        decreases b,
    {
        assert(t.take(b as int)[b - 1] == s@[a + b - 1]);
        assert(t.take(b as int).take(b - 1) =~= t.take(b - 1));
        b = b - 1;
    }
    assert(t.take(b as int).len() == b);
    assert(b > 0 ==> !is_space(t.take(b as int)[b - 1]));
    assert(trim_back(t.take(b as int)) == t.take(b as int));
    let r = copy_range(s, a, a + b);
    assert(s@.subrange(a as int, a + b as int) =~= t.take(b as int));
    r
}

} // verus!

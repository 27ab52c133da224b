//! Extracting the numeric job identifier from the submission command's
//! output.
//!
//! The submission command announces the new job in free text; the job id
//! is the first whitespace-separated token that is a decimal `u64` — an
//! optional leading `+`, then digits, with a value that fits.  A token
//! that is not (including one whose value overflows) is passed over and
//! the scan continues with the next.

use vstd::prelude::*;
use crate::text::is_space;
use crate::text::byte_is_space;
use crate::script::token_end;
use crate::script::token_end_exec;

verus! {

/// Whether every byte of `t` is a decimal digit.
pub open spec fn all_digits(t: Seq<u8>) -> bool {
    forall|k: int| 0 <= k < t.len() ==> 48 <= #[trigger] t[k] <= 57
}

/// The value of a digit sequence read in base ten.
pub open spec fn digits_value(t: Seq<u8>) -> int
    decreases t.len(),
{
    if t.len() == 0 {
        0
    } else {
        digits_value(t.take(t.len() - 1)) * 10 + (t[t.len() - 1] - 48)
    }
}

/// `t` without an optional leading `+` sign.
pub open spec fn numeric_part(t: Seq<u8>) -> Seq<u8> {
    if t.len() > 0 && t[0] == 43 {
        t.skip(1)
    } else {
        t
    }
}

/// Whether `t` parses as a decimal `u64`: an optional `+`, then at least
/// one digit, with a value no greater than `u64::MAX`.
pub open spec fn valid_job_id_token(t: Seq<u8>) -> bool {
    let d = numeric_part(t);
    d.len() > 0 && all_digits(d) && digits_value(d) <= u64::MAX
}

/// The value of a valid token.
pub open spec fn token_job_id(t: Seq<u8>) -> int {
    digits_value(numeric_part(t))
}

/// The job id announced at or after position `i`: the value of the first
/// token from there that parses as a `u64`, scanning token by token.
pub open spec fn job_id_from(s: Seq<u8>, i: int) -> Option<int>
    decreases s.len() - i, 1int,
{
    if i < 0 || i >= s.len() {
        Option::None
    } else if is_space(s[i]) {
        job_id_from(s, i + 1)
    } else {
        let e = token_end(s, i);
        if valid_job_id_token(s.subrange(i, e)) {
            Option::Some(token_job_id(s.subrange(i, e)))
        } else {
            skip_token(s, i)
        }
    }
}

/// The rest of the scan once the token beginning at `i` has been passed
/// over: the bytes up to the next whitespace are ignored.
pub open spec fn skip_token(s: Seq<u8>, i: int) -> Option<int>
    decreases s.len() - i, 0int,
{
    if i < 0 || i >= s.len() {
        Option::None
    } else if is_space(s[i]) {
        job_id_from(s, i + 1)
    } else {
        skip_token(s, i + 1)
    }
}

/// `token_end` bounds its result and delimits a whitespace-free run.
proof fn lemma_token_end_chars(s: Seq<u8>, i: int)
    requires
        0 <= i <= s.len(),
    ensures
        i <= token_end(s, i) <= s.len(),
        forall|k: int| i <= k < token_end(s, i) ==> !is_space(s[k]),
        token_end(s, i) < s.len() ==> is_space(s[token_end(s, i)]),
    decreases s.len() - i,
{
    if i < s.len() && !is_space(s[i]) {
        lemma_token_end_chars(s, i + 1);
    }
}

/// Passing over a whitespace-free run `[i, e)` resumes the scan after the
/// whitespace at `e`, or ends it at the end of the bytes.
proof fn lemma_skip_token_run(s: Seq<u8>, i: int, e: int)
    requires
        0 <= i <= e <= s.len(),
        forall|k: int| i <= k < e ==> !is_space(s[k]),
        e < s.len() ==> is_space(s[e]),
    ensures
        skip_token(s, i) == (if e < s.len() {
            job_id_from(s, e + 1)
        } else {
            Option::<int>::None
        }),
    decreases e - i,
{
    if i < s.len() && i < e {
        lemma_skip_token_run(s, i + 1, e);
    }
}

/// A digit sequence has a non-negative value.
proof fn lemma_digits_value_nonneg(t: Seq<u8>)
    requires
        all_digits(t),
    ensures
        digits_value(t) >= 0,
    decreases t.len(),
{
    if t.len() > 0 {
        assert(all_digits(t.take(t.len() - 1)));
        lemma_digits_value_nonneg(t.take(t.len() - 1));
    }
}

/// Reading more digits never shrinks the value.
proof fn lemma_digits_value_prefix(t: Seq<u8>, m: int)
    requires
        0 <= m <= t.len(),
        all_digits(t),
    ensures
        digits_value(t.take(m)) <= digits_value(t),
    decreases t.len() - m,
{
    if m < t.len() {
        assert(all_digits(t.take(m)));
        lemma_digits_value_nonneg(t.take(m));
        assert(t.take(m + 1).take(m) =~= t.take(m));
        assert(t.take(m + 1)[m] == t[m]);
        lemma_digits_value_prefix(t, m + 1);
    } else {
        assert(t.take(m) =~= t);
    }
}

/// Parses the token `s[a..e]` as a decimal `u64`, as `valid_job_id_token`
/// and `token_job_id` define it.
fn parse_job_id_token(s: &Vec<u8>, a: usize, e: usize) -> (r: Option<u64>)
    requires
        a <= e <= s.len(),
    ensures
        (match r {
            Option::Some(v) => valid_job_id_token(s@.subrange(a as int, e as int)) && v
                == token_job_id(s@.subrange(a as int, e as int)),
            Option::None => !valid_job_id_token(s@.subrange(a as int, e as int)),
        }),
{
    let ghost tok = s@.subrange(a as int, e as int);
    let mut k = a;
    if k < e && s[k] == 43 {
        k = k + 1;
    }
    let ghost k0 = k as int;
    let ghost d = s@.subrange(k0, e as int);
    proof {
        if tok.len() > 0 && tok[0] == 43 {
            assert(tok.skip(1) =~= s@.subrange(a + 1, e as int));
        }
        assert(numeric_part(tok) == d);
    }
    if k == e {
        assert(d.len() == 0);
        return None;
    }
    let mut acc: u64 = 0;
    assert(s@.subrange(k0, k0) =~= Seq::<u8>::empty());
    while k < e
        invariant
            0 <= k0,
            k0 <= k as int <= e <= s@.len(),
            a <= e,
            tok == s@.subrange(a as int, e as int),
            d == numeric_part(tok),
            d == s@.subrange(k0, e as int),
            forall|j: int| k0 <= j < k as int ==> 48 <= #[trigger] s@[j] <= 57,
            acc == digits_value(s@.subrange(k0, k as int)),
        decreases e - k,
    {
        let c = s[k];
        if c < 48 || c > 57 {
            proof {
                assert(d[k - k0] == s@[k as int]);
                assert(!all_digits(d));
            }
            return None;
        }
        let dig = (c - 48) as u64;
        let ghost next = s@.subrange(k0, k + 1);
        proof {
            assert(next.take(next.len() - 1) =~= s@.subrange(k0, k as int));
            assert(next[next.len() - 1] == s@[k as int]);
            assert(digits_value(next) == acc * 10 + dig);
        }
        let stepped = match acc.checked_mul(10) {
            Some(m) => m.checked_add(dig),
            None => None,
        };
        match stepped {
            Some(nv) => {
                acc = nv;
            },
            None => {
                proof {
                    assert(digits_value(next) > u64::MAX);
                    if all_digits(d) {
                        assert(d.take(k + 1 - k0) =~= next);
                        lemma_digits_value_prefix(d, k + 1 - k0);
                        assert(digits_value(d) > u64::MAX);
                    }
                }
                return None;
            },
        }
        k = k + 1;
    }
    proof {
        assert(s@.subrange(k0, k as int) == d);
        assert(all_digits(d));
        assert(valid_job_id_token(tok));
        assert(token_job_id(tok) == acc);
    }
    Some(acc)
}

/// Finds the job id in the submission command's output: the value of the
/// first whitespace-separated token that parses as a decimal `u64`, or
/// `None` when no token does.
pub fn extract_job_id(output: &Vec<u8>) -> (r: Option<u64>)
    ensures
        (match r {
            Option::Some(v) => job_id_from(output@, 0) == Option::Some(v as int),
            Option::None => job_id_from(output@, 0) is None,
        }),
{
    let len = output.len();
    let mut i: usize = 0;
    loop
        invariant
            i <= len == output@.len(),
            job_id_from(output@, 0) == job_id_from(output@, i as int),
        decreases len - i,
    {
        if i == len {
            return None;
        }
        if byte_is_space(output[i]) {
            i = i + 1;
        } else {
            let e = token_end_exec(output, i);
            proof {
                lemma_token_end_chars(output@, i as int);
            }
            match parse_job_id_token(output, i, e) {
                Some(v) => {
                    return Some(v);
                },
                None => {
                    proof {
                        lemma_skip_token_run(output@, i as int, e as int);
                    }
                    if e == len {
                        return None;
                    }
                    i = e + 1;
                },
            }
        }
    }
}

} // verus!

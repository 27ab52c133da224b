//! Turning a log-output pattern into a concrete path.
//!
//! The scheduler's output pattern may hold the placeholders `%j` (job id)
//! and `%x` (job name).  Formatting substitutes the decimal job id for
//! every `%j` and, when a job name is known, the name for every `%x`.
//! The formatted name is then resolved against a base directory unless it
//! is already absolute.

use vstd::prelude::*;

verus! {

/// The decimal digits of `n`, most significant first, as bytes.
pub open spec fn dec_digits(n: nat) -> Seq<u8>
    decreases n,
{
    if n < 10 {
        seq![(48 + n) as u8]
    } else {
        dec_digits(n / 10) + seq![(48 + n % 10) as u8]
    }
}

/// `s` with every occurrence of the two-byte pattern `b0 b1` replaced by
/// `to`, scanning left to right without overlap.
pub open spec fn replace_pair(s: Seq<u8>, b0: u8, b1: u8, to: Seq<u8>) -> Seq<u8>
    decreases s.len(),
{
    if s.len() < 2 {
        s
    } else if s[0] == b0 && s[1] == b1 {
        to + replace_pair(s.skip(2), b0, b1, to)
    } else {
        seq![s[0]] + replace_pair(s.skip(1), b0, b1, to)
    }
}

/// The log file name a pattern formats to for a job: `%j` (bytes `37 106`)
/// becomes the decimal job id; `%x` (bytes `37 120`) becomes the job name
/// when one is known.
pub open spec fn formatted_log_name(pattern: Seq<u8>, jobid: nat, name: Option<Seq<u8>>) -> Seq<
    u8,
> {
    let with_id = replace_pair(pattern, 37, 106, dec_digits(jobid));
    match name {
        Option::Some(n) => replace_pair(with_id, 37, 120, n),
        Option::None => with_id,
    }
}

/// Whether `p` is an absolute path: it begins with the separator byte.
pub open spec fn is_absolute_path(p: Seq<u8>) -> bool {
    p.len() > 0 && p[0] == 47
}

/// `rel` appended to the directory `base`, with a separator between them
/// unless `base` is empty or already ends with one.
pub open spec fn joined_path(base: Seq<u8>, rel: Seq<u8>) -> Seq<u8> {
    if base.len() == 0 {
        rel
    } else if base[base.len() - 1] == 47 {
        base + rel
    } else {
        base + seq![47u8] + rel
    }
}

/// Where a formatted log file name points: itself when absolute, and
/// otherwise relative to `base`.
pub open spec fn resolved_log_path(base: Seq<u8>, logfile: Seq<u8>) -> Seq<u8> {
    if is_absolute_path(logfile) {
        logfile
    } else {
        joined_path(base, logfile)
    }
}

/// Appends the decimal digits of `n` to `out`.
fn push_decimal(n: u64, out: &mut Vec<u8>)
    ensures
        final(out)@ == old(out)@ + dec_digits(n as nat),
    decreases n,
{
    if n < 10 {
        out.push(48 + n as u8);
        assert(old(out)@.push((48 + n) as u8) =~= old(out)@ + dec_digits(n as nat));
    } else {
        assert(n / 10 < n && n / 10 >= 1) by (nonlinear_arith)
            requires
                n >= 10,
        ;
        push_decimal(n / 10, out);
        let d = n % 10;
        out.push(48 + d as u8);
        assert((old(out)@ + dec_digits(n as nat / 10)).push((48 + n as nat % 10) as u8)
            =~= old(out)@ + dec_digits(n as nat));
    }
}

/// Appends a copy of `src` to `out`.
fn push_all(src: &Vec<u8>, out: &mut Vec<u8>)
    ensures
        final(out)@ == old(out)@ + src@,
{
    let mut k: usize = 0;
    assert(out@ =~= old(out)@ + src@.take(0));
    while k < src.len()
        invariant
            k <= src@.len(),
            out@ == old(out)@ + src@.take(k as int),
        decreases src@.len() - k,
    {
        out.push(src[k]);
        assert((old(out)@ + src@.take(k as int)).push(src@[k as int]) =~= old(out)@ + src@.take(
            k + 1,
        ));
        k = k + 1;
    }
    assert(src@.take(src@.len() as int) =~= src@);
}

/// `s` with every `b0 b1` pair replaced by `to`, left to right without
/// overlap, as `replace_pair` defines it.
fn replace_pair_exec(s: &Vec<u8>, b0: u8, b1: u8, to: &Vec<u8>) -> (r: Vec<u8>)
    ensures
        r@ == replace_pair(s@, b0, b1, to@),
{
    let len = s.len();
    let mut out: Vec<u8> = Vec::new();
    let mut i: usize = 0;
    assert(s@.skip(0) =~= s@);
    assert(out@ + replace_pair(s@, b0, b1, to@) =~= replace_pair(s@, b0, b1, to@));
    while i < len
        invariant
            i <= len == s@.len(),
            replace_pair(s@, b0, b1, to@) == out@ + replace_pair(s@.skip(i as int), b0, b1, to@),
        decreases len - i,
    {
        let ghost rest = s@.skip(i as int);
        if i + 1 < len && s[i] == b0 && s[i + 1] == b1 {
            proof {
                assert(rest.len() >= 2);
                assert(rest[0] == s@[i as int] && rest[1] == s@[i + 1]);
                assert(rest.skip(2) =~= s@.skip(i + 2));
                assert(out@ + (to@ + replace_pair(s@.skip(i + 2), b0, b1, to@)) =~= (out@ + to@)
                    + replace_pair(s@.skip(i + 2), b0, b1, to@));
            }
            push_all(to, &mut out);
            i = i + 2;
        } else {
            proof {
                assert(rest[0] == s@[i as int]);
                if rest.len() >= 2 {
                    assert(rest[1] == s@[i + 1]);
                    assert(!(rest[0] == b0 && rest[1] == b1));
                    assert(rest.skip(1) =~= s@.skip(i + 1));
                    assert(out@ + (seq![rest[0]] + replace_pair(s@.skip(i + 1), b0, b1, to@))
                        =~= out@.push(s@[i as int]) + replace_pair(s@.skip(i + 1), b0, b1, to@));
                } else {
                    assert(rest =~= seq![rest[0]]);
                    assert(replace_pair(rest, b0, b1, to@) == rest);
                    assert(s@.skip(i + 1) =~= Seq::<u8>::empty());
                    assert(replace_pair(s@.skip(i + 1), b0, b1, to@) == s@.skip(i + 1));
                    assert(out@ + rest =~= out@.push(s@[i as int]) + s@.skip(i + 1));
                }
            }
            let c = s[i];
            out.push(c);
            i = i + 1;
        }
    }
    assert(s@.skip(len as int) =~= Seq::<u8>::empty());
    assert(replace_pair(s@.skip(len as int), b0, b1, to@) == s@.skip(len as int));
    assert(out@ + Seq::<u8>::empty() =~= out@);
    out
}

/// Formats the output pattern for a job: every `%j` becomes the decimal
/// job id, and — when a job name is known — every `%x` becomes the name.
pub fn format_log_output_string(
    logfile_pattern_string: Vec<u8>,
    jobid: u64,
    job_name: Option<&Vec<u8>>,
) -> (r: Vec<u8>)
    ensures
        r@ == formatted_log_name(logfile_pattern_string@, jobid as nat, match job_name {
            Option::Some(n) => Option::Some(n@),
            Option::None => Option::<Seq<u8>>::None,
        }),
{
    let mut id_digits: Vec<u8> = Vec::new();
    push_decimal(jobid, &mut id_digits);
    assert(id_digits@ =~= dec_digits(jobid as nat));
    let with_id = replace_pair_exec(&logfile_pattern_string, 37, 106, &id_digits);
    match job_name {
        Some(name) => replace_pair_exec(&with_id, 37, 120, name),
        None => with_id,
    }
}

/// Whether `p` is an absolute path.
pub fn path_is_absolute(p: &Vec<u8>) -> (r: bool)
    ensures
        r == is_absolute_path(p@),
{
    p.len() > 0 && p[0] == 47
}

/// Resolves a formatted log file name to a full path: an absolute name is
/// kept as it is (wherever the base came from), a relative one is joined
/// to the base directory.
pub fn logfile_string_to_path(base_dir: &Vec<u8>, logfile: Vec<u8>) -> (r: Vec<u8>)
    ensures
        r@ == resolved_log_path(base_dir@, logfile@),
{
    if path_is_absolute(&logfile) {
        logfile
    } else if base_dir.len() == 0 {
        logfile
    } else {
        let mut r: Vec<u8> = Vec::new();
        push_all(base_dir, &mut r);
        assert(r@ =~= base_dir@);
        if base_dir[base_dir.len() - 1] != 47 {
            r.push(47);
            assert(r@ =~= base_dir@ + seq![47u8]);
        }
        push_all(&logfile, &mut r);
        r
    }
}

} // verus!

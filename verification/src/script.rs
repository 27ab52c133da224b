//! Parsing scheduler directives out of a batch script.
//!
//! A batch script announces where the scheduler will write the job's log
//! and, optionally, the job's name, in comment directives such as
//! `#SBATCH --output=out.%j.log` or `#SBATCH -J name`.  The first line
//! whose trimmed text starts with the directive key yields the value:
//! the text between the first `=` and the next one when the line uses the
//! `key=value` form, and otherwise the line's third whitespace-separated
//! token; a matching line with neither form is passed over.

use vstd::prelude::*;
use crate::text::is_space;
use crate::text::is_prefix;
use crate::text::trimmed;
use crate::text::trim_bytes;
use crate::text::has_prefix;
use crate::text::copy_range;

verus! {

/// Index of the first occurrence of `b` in `s` at or after `i`, or the
/// length of `s` when there is none.
pub open spec fn find_byte(s: Seq<u8>, b: u8, i: int) -> int
    decreases s.len() - i,
{
    if i < 0 || i >= s.len() {
        s.len() as int
    } else if s[i] == b {
        i
    } else {
        find_byte(s, b, i + 1)
    }
}

/// Index of the first non-whitespace byte at or after `i`, or the length
/// of `s`.
pub open spec fn skip_ws(s: Seq<u8>, i: int) -> int
    decreases s.len() - i,
{
    if i < 0 || i >= s.len() {
        s.len() as int
    } else if is_space(s[i]) {
        skip_ws(s, i + 1)
    } else {
        i
    }
}

/// Index of the first whitespace byte at or after `i`, or the length of
/// `s`: the end of a token beginning at `i`.
pub open spec fn token_end(s: Seq<u8>, i: int) -> int
    decreases s.len() - i,
{
    if i < 0 || i >= s.len() {
        s.len() as int
    } else if is_space(s[i]) {
        i
    } else {
        token_end(s, i + 1)
    }
}

/// How many bytes of `s` precede its first `b` (all of `s` when none).
pub open spec fn prefix_len_until(s: Seq<u8>, b: u8) -> nat
    decreases s.len(),
{
    if s.len() == 0 {
        0
    } else if s[0] == b {
        0
    } else {
        1 + prefix_len_until(s.skip(1), b)
    }
}

/// `s` split at newline bytes, the terminators removed.
pub open spec fn split_lines(s: Seq<u8>) -> Seq<Seq<u8>>
    decreases s.len(),
{
    let n = prefix_len_until(s, 10);
    if n >= s.len() {
        seq![s]
    } else {
        seq![s.take(n as int)] + split_lines(s.skip(n as int + 1))
    }
}

/// The third whitespace-separated token of `line`, when it has one.
pub open spec fn third_token(line: Seq<u8>) -> Option<Seq<u8>> {
    let a0 = skip_ws(line, 0);
    let e0 = token_end(line, a0);
    let a1 = skip_ws(line, e0);
    let e1 = token_end(line, a1);
    let a2 = skip_ws(line, e1);
    let e2 = token_end(line, a2);
    if a2 < line.len() {
        Option::Some(line.subrange(a2, e2))
    } else {
        Option::None
    }
}

/// The value a single line contributes for a directive with keys `long`
/// and `short`: for a trimmed line starting with either key, the text
/// between the first `=` and the next (or line end) when the line
/// contains `=`, and otherwise its third token, when present.
pub open spec fn directive_value(line_raw: Seq<u8>, long: Seq<u8>, short: Seq<u8>) -> Option<
    Seq<u8>,
> {
    let line = trimmed(line_raw);
    if is_prefix(long, line) || is_prefix(short, line) {
        let eq1 = find_byte(line, 61, 0);
        if eq1 < line.len() {
            Option::Some(line.subrange(eq1 + 1, find_byte(line, 61, eq1 + 1)))
        } else {
            third_token(line)
        }
    } else {
        Option::None
    }
}

/// The value of the first line that yields one.
pub open spec fn find_directive_in(lines: Seq<Seq<u8>>, long: Seq<u8>, short: Seq<u8>) -> Option<
    Seq<u8>,
>
    decreases lines.len(),
{
    if lines.len() == 0 {
        Option::None
    } else {
        match directive_value(lines[0], long, short) {
            Option::Some(v) => Option::Some(v),
            Option::None => find_directive_in(lines.skip(1), long, short),
        }
    }
}

/// The key `#SBATCH --output`, as bytes.
pub open spec fn key_output_long() -> Seq<u8> {
    seq![35u8, 83u8, 66u8, 65u8, 84u8, 67u8, 72u8, 32u8, 45u8, 45u8, 111u8, 117u8, 116u8, 112u8, 117u8, 116u8]
}

/// The key `#SBATCH -o`, as bytes.
pub open spec fn key_output_short() -> Seq<u8> {
    seq![35u8, 83u8, 66u8, 65u8, 84u8, 67u8, 72u8, 32u8, 45u8, 111u8]
}

/// The key `#SBATCH --job-name`, as bytes.
pub open spec fn key_job_name_long() -> Seq<u8> {
    seq![35u8, 83u8, 66u8, 65u8, 84u8, 67u8, 72u8, 32u8, 45u8, 45u8, 106u8, 111u8, 98u8, 45u8, 110u8, 97u8, 109u8, 101u8]
}

/// The key `#SBATCH -J`, as bytes.
pub open spec fn key_job_name_short() -> Seq<u8> {
    seq![35u8, 83u8, 66u8, 65u8, 84u8, 67u8, 72u8, 32u8, 45u8, 74u8]
}

/// The log-output pattern named by the script's output directive.
pub open spec fn output_pattern(script: Seq<u8>) -> Option<Seq<u8>> {
    find_directive_in(split_lines(script), key_output_long(), key_output_short())
}

/// The job name named by the script's job-name directive.
pub open spec fn job_name(script: Seq<u8>) -> Option<Seq<u8>> {
    find_directive_in(split_lines(script), key_job_name_long(), key_job_name_short())
}

/// The shared prefix `#SBATCH -` of every key, as a fresh vector.
fn build_key_stem() -> (r: Vec<u8>)
    ensures
        r@ =~= seq![35u8, 83u8, 66u8, 65u8, 84u8, 67u8, 72u8, 32u8, 45u8],
{
    let mut r: Vec<u8> = Vec::new();
    r.push(35);  // #
    r.push(83);  // S
    r.push(66);  // B
    r.push(65);  // A
    r.push(84);  // T
    r.push(67);  // C
    r.push(72);  // H
    r.push(32);
    r.push(45);  // -
    r
}

/// The key `#SBATCH --output`, as a fresh vector.
fn build_key_output_long() -> (r: Vec<u8>)
    ensures
        r@ == key_output_long(),
{
    let mut r = build_key_stem();
    r.push(45);  // -
    r.push(111);  // o
    r.push(117);  // u
    r.push(116);  // t
    r.push(112);  // p
    r.push(117);  // u
    r.push(116);  // t
    assert(r@ =~= key_output_long());
    r
}

/// The key `#SBATCH -o`, as a fresh vector.
fn build_key_output_short() -> (r: Vec<u8>)
    ensures
        r@ == key_output_short(),
{
    let mut r = build_key_stem();
    r.push(111);  // o
    assert(r@ =~= key_output_short());
    r
}

/// The key `#SBATCH --job-name`, as a fresh vector.
fn build_key_job_name_long() -> (r: Vec<u8>)
    ensures
        r@ == key_job_name_long(),
{
    let mut r = build_key_stem();
    r.push(45);  // -
    r.push(106);  // j
    r.push(111);  // o
    r.push(98);  // b
    r.push(45);  // -
    r.push(110);  // n
    r.push(97);  // a
    r.push(109);  // m
    r.push(101);  // e
    assert(r@ =~= key_job_name_long());
    r
}

/// The key `#SBATCH -J`, as a fresh vector.
fn build_key_job_name_short() -> (r: Vec<u8>)
    ensures
        r@ == key_job_name_short(),
{
    let mut r = build_key_stem();
    r.push(74);  // J
    assert(r@ =~= key_job_name_short());
    r
}

/// Index of the first occurrence of `b` at or after `from`, or the length
/// of `s`.
fn find_byte_exec(s: &Vec<u8>, b: u8, from: usize) -> (e: usize)
    requires
        from <= s.len(),
    ensures
        from <= e <= s.len(),
        e == find_byte(s@, b, from as int),
{
    let mut k = from;
    while k < s.len()
        invariant
            from <= k <= s@.len(),
            find_byte(s@, b, from as int) == find_byte(s@, b, k as int),
        decreases s@.len() - k,
    {
        if s[k] == b {
            return k;
        }
        k = k + 1;
    }
    k
}

/// Index of the first non-whitespace byte at or after `from`, or the
/// length of `s`.
fn skip_ws_exec(s: &Vec<u8>, from: usize) -> (e: usize)
    requires
        from <= s.len(),
    ensures
        from <= e <= s.len(),
        e == skip_ws(s@, from as int),
{
    let mut k = from;
    while k < s.len()
        invariant
            from <= k <= s@.len(),
            skip_ws(s@, from as int) == skip_ws(s@, k as int),
        decreases s@.len() - k,
    {
        if !crate::text::byte_is_space(s[k]) {
            return k;
        }
        k = k + 1;
    }
    k
}

/// Index of the first whitespace byte at or after `from`, or the length
/// of `s`.
pub(crate) fn token_end_exec(s: &Vec<u8>, from: usize) -> (e: usize)
    requires
        from <= s.len(),
    ensures
        from <= e <= s.len(),
        e == token_end(s@, from as int),
{
    let mut k = from;
    while k < s.len()
        invariant
            from <= k <= s@.len(),
            token_end(s@, from as int) == token_end(s@, k as int),
        decreases s@.len() - k,
    {
        if crate::text::byte_is_space(s[k]) {
            return k;
        }
        k = k + 1;
    }
    k
}

/// The end of the line beginning at `from`: the index of the next newline
/// byte, or the end of `s`.
fn line_break(s: &Vec<u8>, from: usize) -> (e: usize)
    requires
        from <= s.len(),
    ensures
        from <= e <= s.len(),
        e - from == prefix_len_until(s@.skip(from as int), 10),
        e < s.len() ==> s@[e as int] == 10,
{
    let mut k = from;
    while k < s.len()
        invariant
            from <= k <= s@.len(),
            prefix_len_until(s@.skip(from as int), 10) == k - from + prefix_len_until(
                s@.skip(k as int),
                10,
            ),
        decreases s@.len() - k,
    {
        if s[k] == 10 {
            assert(s@.skip(k as int)[0] == s@[k as int]);
            return k;
        }
        assert(s@.skip(k as int)[0] == s@[k as int]);
        assert(s@.skip(k as int).skip(1) =~= s@.skip(k + 1));
        k = k + 1;
    }
    assert(s@.skip(k as int).len() == 0);
    k
}

/// The value `line_raw` contributes for the directive with the given
/// keys, as `directive_value` defines it.
fn directive_value_exec(line_raw: &Vec<u8>, long: &Vec<u8>, short: &Vec<u8>) -> (r: Option<
    Vec<u8>,
>)
    ensures
        (match r {
            Option::Some(v) => directive_value(line_raw@, long@, short@) == Option::Some(v@),
            Option::None => directive_value(line_raw@, long@, short@) is None,
        }),
{
    let line = trim_bytes(line_raw);
    let on_long = has_prefix(&line, long);
    let on_short = has_prefix(&line, short);
    if on_long || on_short {
        let eq1 = find_byte_exec(&line, 61, 0);
        if eq1 < line.len() {
            let eq2 = find_byte_exec(&line, 61, eq1 + 1);
            Some(copy_range(&line, eq1 + 1, eq2))
        } else {
            let a0 = skip_ws_exec(&line, 0);
            let e0 = token_end_exec(&line, a0);
            let a1 = skip_ws_exec(&line, e0);
            let e1 = token_end_exec(&line, a1);
            let a2 = skip_ws_exec(&line, e1);
            let e2 = token_end_exec(&line, a2);
            if a2 < line.len() {
                Some(copy_range(&line, a2, e2))
            } else {
                None
            }
        }
    } else {
        None
    }
}

/// The value of the first line of `script` that yields one for the given
/// directive keys.
fn find_directive_exec(script: &Vec<u8>, long: &Vec<u8>, short: &Vec<u8>) -> (r: Option<Vec<u8>>)
    ensures
        (match r {
            Option::Some(v) => find_directive_in(split_lines(script@), long@, short@)
                == Option::Some(v@),
            Option::None => find_directive_in(split_lines(script@), long@, short@) is None,
        }),
{
    let len = script.len();
    let mut ls: usize = 0;
    assert(script@.skip(0) =~= script@);
    loop
        invariant
            ls <= len,
            len == script@.len(),
            find_directive_in(split_lines(script@), long@, short@) == find_directive_in(
                split_lines(script@.skip(ls as int)),
                long@,
                short@,
            ),
        decreases len - ls,
    {
        let e = line_break(script, ls);
        let line = copy_range(script, ls, e);
        let ghost t = script@.skip(ls as int);
        let ghost n = prefix_len_until(t, 10);
        proof {
            assert(n == e - ls);
            if e == len {
                assert(t =~= script@.subrange(ls as int, e as int));
                assert(split_lines(t) == seq![t]);
            } else {
                assert(n < t.len());
                assert(t.take(n as int) =~= script@.subrange(ls as int, e as int));
                assert(t.skip(n as int + 1) =~= script@.skip(e + 1));
                assert(split_lines(t) == seq![t.take(n as int)] + split_lines(t.skip(n as int + 1)));
                assert(split_lines(t)[0] == t.take(n as int));
                assert(split_lines(t).skip(1) =~= split_lines(t.skip(n as int + 1)));
            }
            assert(split_lines(t)[0] == line@);
            assert(split_lines(t).len() > 0);
        }
        match directive_value_exec(&line, long, short) {
            Some(v) => {
                return Some(v);
            },
            None => {
                if e == len {
                    assert(split_lines(t).skip(1) =~= Seq::<Seq<u8>>::empty());
                    assert(find_directive_in(Seq::<Seq<u8>>::empty(), long@, short@) is None);
                    return None;
                }
                ls = e + 1;
            },
        }
    }
}

/// Finds the log-output pattern announced by the script's first output
/// directive (`#SBATCH --output` or `#SBATCH -o`, in either the
/// `key=value` or the `key value` form); `None` when the script has no
/// such directive.
pub fn extract_log_output_pattern(script: &Vec<u8>) -> (r: Option<Vec<u8>>)
    ensures
        (match r {
            Option::Some(v) => output_pattern(script@) == Option::Some(v@),
            Option::None => output_pattern(script@) is None,
        }),
{
    let long = build_key_output_long();
    let short = build_key_output_short();
    find_directive_exec(script, &long, &short)
}

/// Finds the job name announced by the script's first job-name directive
/// (`#SBATCH --job-name` or `#SBATCH -J`); `None` when the script names
/// none.
pub fn extract_job_name(script: &Vec<u8>) -> (r: Option<Vec<u8>>)
    ensures
        (match r {
            Option::Some(v) => job_name(script@) == Option::Some(v@),
            Option::None => job_name(script@) is None,
        }),
{
    let long = build_key_job_name_long();
    let short = build_key_job_name_short();
    find_directive_exec(script, &long, &short)
}

} // verus!

//! Small verified helpers for strings and character slices.
//!
//! The text-processing here works on `&[char]` slices: [`chars_of`] turns a
//! `&str` into its characters, the functions below scan or split them, and
//! [`string_from_chars`] turns a result back into a `String`. Each exec
//! function mirrors its spec function, so the contracts are exact.

use vstd::prelude::*;
use vstd::slice::slice_subrange;

verus! {

/// Equality of two string slices, by their character sequences.
pub fn str_eq(a: &str, b: &str) -> (r: bool)
    ensures
        r == (a@ == b@),
{
    let x = a.to_owned();
    let y = b.to_owned();
    x == y
}

/// The characters of a string, in order.
pub fn chars_of(s: &str) -> (r: Vec<char>)
    ensures
        r@ == s@,
{
    let n = s.unicode_len();
    let mut v: Vec<char> = Vec::new();
    let mut i: usize = 0;
    while i < n
        invariant
            n == s@.len(),
            i <= n,
            v@ =~= s@.take(i as int),
        decreases n - i,
    {
        v.push(s.get_char(i));
        assert(v@ =~= s@.take(i + 1 as int));
        i = i + 1;
    }
    assert(s@.take(n as int) =~= s@);
    v
}

/// Relies on String's FromIterator over char: collects exactly the given
/// characters into a string.
#[verifier::external_body]
pub(crate) fn string_from_chars(c: &[char]) -> (r: String)
    ensures
        r@ == c@,
{
    c.iter().collect()
}

/// The whitespace characters recognized by the trimming helpers.
pub open spec fn spec_is_ws(c: char) -> bool {
    c == ' ' || c == '\t' || c == '\r' || c == '\n'
}

fn is_ws(c: char) -> (r: bool)
    ensures
        r == spec_is_ws(c),
{
    c == ' ' || c == '\t' || c == '\r' || c == '\n'
}

/// A sequence without its leading whitespace.
pub open spec fn spec_trim_start(s: Seq<char>) -> Seq<char>
    decreases s.len(),
{
    if s.len() > 0 && spec_is_ws(s[0]) {
        spec_trim_start(s.drop_first())
    } else {
        s
    }
}

/// A sequence without its trailing whitespace.
pub open spec fn spec_trim_end(s: Seq<char>) -> Seq<char>
    decreases s.len(),
{
    if s.len() > 0 && spec_is_ws(s.last()) {
        spec_trim_end(s.drop_last())
    } else {
        s
    }
}

/// A sequence without its leading and trailing whitespace.
pub open spec fn spec_trim(s: Seq<char>) -> Seq<char> {
    spec_trim_end(spec_trim_start(s))
}

fn trim_start_slice<'a>(c: &'a [char]) -> (r: &'a [char])
    ensures
        r@ == spec_trim_start(c@),
    decreases c@.len(),
{
    if c.len() > 0 && is_ws(c[0]) {
        let rest = slice_subrange(c, 1, c.len());
        assert(rest@ =~= c@.drop_first());
        trim_start_slice(rest)
    } else {
        c
    }
}

fn trim_end_slice<'a>(c: &'a [char]) -> (r: &'a [char])
    ensures
        r@ == spec_trim_end(c@),
    decreases c@.len(),
{
    if c.len() > 0 && is_ws(c[c.len() - 1]) {
        let rest = slice_subrange(c, 0, c.len() - 1);
        assert(rest@ =~= c@.drop_last());
        trim_end_slice(rest)
    } else {
        c
    }
}

/// Both-ends whitespace trim of a character slice.
pub fn trim_slice<'a>(c: &'a [char]) -> (r: &'a [char])
    ensures
        r@ == spec_trim(c@),
{
    trim_end_slice(trim_start_slice(c))
}

/// Whether `p` is a prefix of `s`.
pub open spec fn spec_starts_with(s: Seq<char>, p: Seq<char>) -> bool
    decreases p.len(),
{
    if p.len() == 0 {
        true
    } else {
        s.len() > 0 && s[0] == p[0] && spec_starts_with(s.drop_first(), p.drop_first())
    }
}

/// Whether the slice starts with the given prefix.
pub fn starts_with_slice(c: &[char], p: &[char]) -> (r: bool)
    ensures
        r == spec_starts_with(c@, p@),
    decreases p@.len(),
{
    if p.len() == 0 {
        true
    } else if c.len() == 0 {
        false
    } else if c[0] != p[0] {
        false
    } else {
        let c2 = slice_subrange(c, 1, c.len());
        let p2 = slice_subrange(p, 1, p.len());
        assert(c2@ =~= c@.drop_first());
        assert(p2@ =~= p@.drop_first());
        starts_with_slice(c2, p2)
    }
}

/// The position of the first occurrence of `p` in `s`, if any.
pub open spec fn spec_find(s: Seq<char>, p: Seq<char>) -> Option<int>
    decreases s.len(),
{
    if spec_starts_with(s, p) {
        Some(0int)
    } else if s.len() == 0 {
        None
    } else {
        match spec_find(s.drop_first(), p) {
            Some(i) => Some(i + 1),
            None => None,
        }
    }
}

/// A prefix is never longer than what it prefixes.
pub proof fn lemma_starts_with_len(s: Seq<char>, p: Seq<char>)
    ensures
        spec_starts_with(s, p) ==> p.len() <= s.len(),
    decreases p.len(),
{
    if p.len() > 0 && s.len() > 0 {
        lemma_starts_with_len(s.drop_first(), p.drop_first());
    }
}

/// Find the first occurrence of `p` in the slice.
pub fn find_slice(c: &[char], p: &[char]) -> (r: Option<usize>)
    ensures
        match r {
            Some(i) => spec_find(c@, p@) == Some(i as int) && i + p@.len() <= c@.len(),
            None => spec_find(c@, p@) is None,
        },
    decreases c@.len(),
{
    if starts_with_slice(c, p) {
        proof {
            lemma_starts_with_len(c@, p@);
        }
        Some(0)
    } else if c.len() == 0 {
        None
    } else {
        let c2 = slice_subrange(c, 1, c.len());
        assert(c2@ =~= c@.drop_first());
        match find_slice(c2, p) {
            Some(i) => Some(i + 1),
            None => None,
        }
    }
}

/// A sequence without one trailing carriage return, if it has one.
pub open spec fn spec_drop_cr(s: Seq<char>) -> Seq<char> {
    if s.len() > 0 && s.last() == '\r' {
        s.drop_last()
    } else {
        s
    }
}

fn drop_cr_slice<'a>(c: &'a [char]) -> (r: &'a [char])
    ensures
        r@ == spec_drop_cr(c@),
{
    if c.len() > 0 && c[c.len() - 1] == '\r' {
        let rest = slice_subrange(c, 0, c.len() - 1);
        assert(rest@ =~= c@.drop_last());
        rest
    } else {
        c
    }
}

proof fn lemma_spec_find_bound(s: Seq<char>, p: Seq<char>)
    ensures
        spec_find(s, p) matches Some(i) ==> 0 <= i <= s.len(),
    decreases s.len(),
{
    if !spec_starts_with(s, p) && s.len() > 0 {
        lemma_spec_find_bound(s.drop_first(), p);
    }
}

/// The first line of a text: up to the first newline, without a trailing
/// carriage return.
pub open spec fn spec_first_line(s: Seq<char>) -> Seq<char> {
    match spec_find(s, seq!['\n']) {
        Some(i) => spec_drop_cr(s.take(i)),
        None => spec_drop_cr(s),
    }
}

/// What follows the first line of a text: everything after the first
/// newline, or nothing where there is none. (The index is clamped into
/// range, so that recursion over lines visibly terminates; a found newline
/// is always in range.)
pub open spec fn spec_after_line(s: Seq<char>) -> Seq<char> {
    match spec_find(s, seq!['\n']) {
        Some(i) => {
            let j = if 1 <= i + 1 && i + 1 <= s.len() {
                i + 1
            } else {
                s.len() as int
            };
            s.skip(j)
        },
        None => Seq::empty(),
    }
}

/// Split a text at its first newline: the first line and the rest. The rest
/// is strictly shorter than a non-empty input, so callers can recurse on it.
pub fn split_first_line<'a>(c: &'a [char]) -> (r: (&'a [char], &'a [char]))
    ensures
        r.0@ == spec_first_line(c@),
        r.1@ == spec_after_line(c@),
        c@.len() > 0 ==> r.1@.len() < c@.len(),
{
    let nl: [char; 1] = ['\n'];
    let nls: &[char] = nl.as_slice();
    proof {
        assert(nls@ =~= seq!['\n']);
        lemma_spec_find_bound(c@, seq!['\n']);
    }
    let clen = c.len();
    match find_slice(c, nls) {
        Some(i) => {
            assert(i + 1 <= clen);
            let head = slice_subrange(c, 0, i);
            assert(head@ =~= c@.take(i as int));
            let rest = slice_subrange(c, i + 1, clen);
            assert(rest@ =~= c@.skip(i + 1 as int));
            (drop_cr_slice(head), rest)
        },
        None => {
            let rest = slice_subrange(c, clen, clen);
            assert(rest@ =~= Seq::<char>::empty());
            (drop_cr_slice(c), rest)
        },
    }
}

/// A sequence with every occurrence of a (non-empty) pattern removed. (The
/// skip index is clamped into range, so that the recursion visibly
/// terminates; a found occurrence is always in range.)
pub open spec fn spec_remove_all(s: Seq<char>, p: Seq<char>) -> Seq<char>
    decreases s.len(),
{
    if s.len() == 0 {
        s
    } else {
        match spec_find(s, p) {
            None => s,
            Some(i) => {
                let j = if 1 <= i + p.len() && i + p.len() <= s.len() {
                    i + p.len() as int
                } else {
                    s.len() as int
                };
                s.take(i) + spec_remove_all(s.skip(j), p)
            },
        }
    }
}

/// Remove every occurrence of a non-empty pattern.
pub fn remove_all_slice(c: &[char], p: &[char]) -> (r: Vec<char>)
    requires
        p@.len() >= 1,
    ensures
        r@ == spec_remove_all(c@, p@),
    decreases c@.len(),
{
    let clen = c.len();
    let mut out: Vec<char> = Vec::new();
    if clen == 0 {
        assert(out@ =~= spec_remove_all(c@, p@));
        return out;
    }
    match find_slice(c, p) {
        None => {
            let mut k: usize = 0;
            while k < clen
                invariant
                    clen == c@.len(),
                    k <= clen,
                    out@ =~= c@.take(k as int),
                decreases clen - k,
            {
                out.push(c[k]);
                assert(out@ =~= c@.take(k + 1 as int));
                k = k + 1;
            }
            assert(out@ =~= c@);
            out
        },
        Some(i) => {
            assert(i + p@.len() <= clen);
            let plen = p.len();
            let mut k: usize = 0;
            while k < i
                invariant
                    i <= clen,
                    clen == c@.len(),
                    k <= i,
                    out@ =~= c@.take(i as int).take(k as int),
                decreases i - k,
            {
                out.push(c[k]);
                assert(out@ =~= c@.take(i as int).take(k + 1 as int));
                k = k + 1;
            }
            assert(out@ =~= c@.take(i as int));
            let rest = slice_subrange(c, i + plen, clen);
            assert(rest@ =~= c@.skip(i + plen as int));
            let tail = remove_all_slice(rest, p);
            let ghost head = out@;
            let ghost tail0 = tail@;
            let tlen = tail.len();
            let mut q: usize = 0;
            while q < tlen
                invariant
                    tlen == tail0.len(),
                    tail@ == tail0,
                    q <= tlen,
                    out@ =~= head + tail0.take(q as int),
                decreases tlen - q,
            {
                out.push(tail[q]);
                assert(out@ =~= head + tail0.take(q + 1 as int));
                q = q + 1;
            }
            assert(out@ =~= c@.take(i as int) + spec_remove_all(c@.skip(i + plen as int), p@));
            out
        },
    }
}

} // verus!

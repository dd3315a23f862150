//! Version handling: numeric comparison of version strings, and the parsing
//! of the two kinds of latest-version responses the tool manager reads — an
//! npm registry document and a bootstrap install script.
//!
//! A version string is compared by its numeric dot-separated components:
//! leading `v`s are dropped, non-numeric components are skipped, and missing
//! components count as zero.

use vstd::prelude::*;
use vstd::slice::slice_subrange;
use crate::strutil::{
    chars_of, string_from_chars, trim_slice, starts_with_slice, find_slice, split_first_line,
    spec_trim, spec_starts_with, spec_find, spec_first_line, spec_after_line,
    lemma_starts_with_len,
};
use crate::jsondoc::{JsonData, json_of_text, json_parse, json_get, json_as_str};
use crate::strutil::str_eq;
use crate::tools::ToolVersion;

verus! {

/// Whether a character is a decimal digit.
pub open spec fn spec_is_digit(c: char) -> bool {
    '0' <= c && c <= '9'
}

/// Whether a sequence is all decimal digits.
pub open spec fn spec_all_digits(s: Seq<char>) -> bool {
    forall|i: int| 0 <= i < s.len() ==> spec_is_digit(#[trigger] s[i])
}

/// The numeric value of a digit sequence.
pub open spec fn spec_num_val(s: Seq<char>) -> int
    decreases s.len(),
{
    if s.len() == 0 {
        0
    } else {
        spec_num_val(s.drop_last()) * 10 + (s.last() as int - '0' as int)
    }
}

/// What parsing a version component as a number gives: the value of a
/// non-empty all-digit sequence that fits in 32 bits, nothing otherwise.
pub open spec fn spec_parse_u32(s: Seq<char>) -> Option<u32> {
    if s.len() > 0 && spec_all_digits(s) && spec_num_val(s) <= u32::MAX as int {
        Some(spec_num_val(s) as u32)
    } else {
        None
    }
}

proof fn lemma_num_val_nonneg(s: Seq<char>)
    requires
        spec_all_digits(s),
    ensures
        spec_num_val(s) >= 0,
    decreases s.len(),
{
    if s.len() > 0 {
        assert(spec_all_digits(s.drop_last()));
        lemma_num_val_nonneg(s.drop_last());
    }
}

proof fn lemma_num_val_mono(s: Seq<char>, i: int)
    requires
        spec_all_digits(s),
        0 <= i <= s.len(),
    ensures
        spec_num_val(s.take(i)) <= spec_num_val(s),
    decreases s.len() - i,
{
    if i < s.len() {
        assert(s.take(i + 1).drop_last() =~= s.take(i));
        assert(s.take(i + 1).last() == s[i]);
        assert(spec_all_digits(s.take(i)));
        lemma_num_val_nonneg(s.take(i));
        lemma_num_val_mono(s, i + 1);
    } else {
        assert(s.take(i) =~= s);
    }
}

/// The value of a decimal digit, or nothing for any other character.
fn digit_val(ch: char) -> (r: Option<u64>)
    ensures
        r is Some <==> spec_is_digit(ch),
        r matches Some(v) ==> v == ch as int - '0' as int && v <= 9,
{
    match ch {
        '0' => Some(0),
        '1' => Some(1),
        '2' => Some(2),
        '3' => Some(3),
        '4' => Some(4),
        '5' => Some(5),
        '6' => Some(6),
        '7' => Some(7),
        '8' => Some(8),
        '9' => Some(9),
        _ => None,
    }
}

/// Parse one version component.
fn parse_u32_chars(c: &[char]) -> (r: Option<u32>)
    ensures
        r == spec_parse_u32(c@),
{
    let n = c.len();
    if n == 0 {
        return None;
    }
    let mut acc: u64 = 0;
    let mut k: usize = 0;
    while k < n
        invariant
            n == c@.len(),
            k <= n,
            forall|j: int| 0 <= j < k ==> spec_is_digit(#[trigger] c@[j]),
            acc == spec_num_val(c@.take(k as int)),
            acc <= u32::MAX,
        decreases n - k,
    {
        proof {
            assert(c@.take(k + 1 as int).drop_last() =~= c@.take(k as int));
            assert(c@.take(k + 1 as int).last() == c@[k as int]);
        }
        match digit_val(c[k]) {
            None => {
                assert(!spec_is_digit(c@[k as int]));
                return None;
            },
            Some(d) => {
                let next: u64 = acc * 10 + d;
                if next > u32::MAX as u64 {
                    proof {
                        if spec_all_digits(c@) {
                            lemma_num_val_mono(c@, k + 1 as int);
                        }
                    }
                    return None;
                }
                acc = next;
            },
        }
        k = k + 1;
    }
    assert(c@.take(n as int) =~= c@);
    assert(spec_all_digits(c@));
    Some(acc as u32)
}

/// A version string without its leading `v` markers.
pub open spec fn spec_strip_v(s: Seq<char>) -> Seq<char>
    decreases s.len(),
{
    if s.len() > 0 && s[0] == 'v' {
        spec_strip_v(s.drop_first())
    } else {
        s
    }
}

fn strip_v_slice<'a>(c: &'a [char]) -> (r: &'a [char])
    ensures
        r@ == spec_strip_v(c@),
    decreases c@.len(),
{
    if c.len() > 0 && c[0] == 'v' {
        let rest = slice_subrange(c, 1, c.len());
        assert(rest@ =~= c@.drop_first());
        strip_v_slice(rest)
    } else {
        c
    }
}

/// The numeric components of a version string: dot-separated parts, keeping
/// those that parse as numbers.
pub open spec fn spec_version_nums(s: Seq<char>) -> Seq<u32>
    decreases s.len(),
{
    if s.len() == 0 {
        Seq::empty()
    } else {
        match spec_find(s, seq!['.']) {
            Some(i) => {
                let j = if 1 <= i + 1 && i + 1 <= s.len() {
                    i + 1
                } else {
                    s.len() as int
                };
                let rest = spec_version_nums(s.skip(j));
                match spec_parse_u32(s.take(i)) {
                    Some(v) => seq![v] + rest,
                    None => rest,
                }
            },
            None => match spec_parse_u32(s) {
                Some(v) => seq![v],
                None => Seq::empty(),
            },
        }
    }
}

fn version_nums(c: &[char]) -> (r: Vec<u32>)
    ensures
        r@ == spec_version_nums(c@),
    decreases c@.len(),
{
    let clen = c.len();
    if clen == 0 {
        let r: Vec<u32> = Vec::new();
        return r;
    }
    let dot: [char; 1] = ['.'];
    let dots: &[char] = dot.as_slice();
    proof {
        assert(dots@ =~= seq!['.']);
    }
    match find_slice(c, dots) {
        Some(i) => {
            assert(i + 1 <= clen);
            let head = slice_subrange(c, 0, i);
            let rest = slice_subrange(c, i + 1, clen);
            assert(head@ =~= c@.take(i as int));
            assert(rest@ =~= c@.skip(i + 1 as int));
            let mut r = version_nums(rest);
            match parse_u32_chars(head) {
                Some(v) => {
                    r.insert(0, v);
                    assert(r@ =~= seq![v] + spec_version_nums(c@.skip(i + 1 as int)));
                },
                None => {},
            }
            r
        },
        None => {
            match parse_u32_chars(c) {
                Some(v) => {
                    let mut r: Vec<u32> = Vec::new();
                    r.push(v);
                    assert(r@ =~= seq![v]);
                    r
                },
                None => {
                    let r: Vec<u32> = Vec::new();
                    r
                },
            }
        },
    }
}

/// A component at a position, counting missing ones as zero.
pub open spec fn spec_part(a: Seq<u32>, i: int) -> u32 {
    if 0 <= i < a.len() {
        a[i]
    } else {
        0u32
    }
}

/// Lexicographic comparison of numeric components from position `i` on:
/// whether `a` is strictly newer than `b`.
pub open spec fn spec_newer_from(a: Seq<u32>, b: Seq<u32>, i: int) -> bool
    decreases (if a.len() >= b.len() {
        a.len() as int
    } else {
        b.len() as int
    }) - i,
{
    if i >= a.len() && i >= b.len() {
        false
    } else if spec_part(a, i) > spec_part(b, i) {
        true
    } else if spec_part(a, i) < spec_part(b, i) {
        false
    } else {
        spec_newer_from(a, b, i + 1)
    }
}

/// Whether `latest` names a strictly newer version than `installed`.
pub open spec fn spec_is_newer(latest: Seq<char>, installed: Seq<char>) -> bool {
    spec_newer_from(
        spec_version_nums(spec_strip_v(latest)),
        spec_version_nums(spec_strip_v(installed)),
        0,
    )
}

/// Whether `latest` is a strictly newer version than `installed`: numeric
/// dot-separated components compared left to right, missing ones as zero.
pub fn is_newer_version(latest: &str, installed: &str) -> (r: bool)
    ensures
        r == spec_is_newer(latest@, installed@),
{
    let lc = chars_of(latest);
    let ic = chars_of(installed);
    let la = version_nums(strip_v_slice(lc.as_slice()));
    let ib = version_nums(strip_v_slice(ic.as_slice()));
    let n: usize = if la.len() >= ib.len() {
        la.len()
    } else {
        ib.len()
    };
    let mut i: usize = 0;
    while i < n
        invariant
            la@ == spec_version_nums(spec_strip_v(latest@)),
            ib@ == spec_version_nums(spec_strip_v(installed@)),
            n == (if la@.len() >= ib@.len() {
                la@.len()
            } else {
                ib@.len()
            }),
            i <= n,
            spec_newer_from(la@, ib@, 0) == spec_newer_from(la@, ib@, i as int),
        decreases n - i,
    {
        let x: u32 = if i < la.len() {
            la[i]
        } else {
            0
        };
        let y: u32 = if i < ib.len() {
            ib[i]
        } else {
            0
        };
        if x > y {
            proof {
                assert(spec_part(la@, i as int) > spec_part(ib@, i as int));
                assert(spec_newer_from(la@, ib@, i as int));
            }
            return true;
        }
        if x < y {
            proof {
                assert(spec_part(la@, i as int) < spec_part(ib@, i as int));
                assert(!spec_newer_from(la@, ib@, i as int));
            }
            return false;
        }
        i = i + 1;
    }
    false
}

/// What the latest-version field of an npm registry document is: the string
/// under `dist-tags` / `latest`, where the document has that shape.
pub open spec fn spec_npm_latest(text: Seq<char>) -> Option<Seq<char>> {
    match json_of_text(text) {
        Some(d) => match d {
            JsonData::Obj(top) => {
                if top.contains_key("dist-tags"@) {
                    match top["dist-tags"@] {
                        JsonData::Obj(dt) => {
                            if dt.contains_key("latest"@) {
                                match dt["latest"@] {
                                    JsonData::Str(v) => Some(v),
                                    _ => None,
                                }
                            } else {
                                None
                            }
                        },
                        _ => None,
                    }
                } else {
                    None
                }
            },
            _ => None,
        },
        None => None,
    }
}

/// The latest version named in an npm registry response body.
pub fn npm_latest_from_json(body: &str) -> (r: Option<String>)
    ensures
        match r {
            Some(v) => spec_npm_latest(body@) == Some(v@),
            None => spec_npm_latest(body@) is None,
        },
{
    match json_parse(body) {
        None => None,
        Some(doc) => match json_get(&doc, "dist-tags") {
            None => None,
            Some(dt) => match json_get(dt, "latest") {
                None => None,
                Some(lv) => match json_as_str(lv) {
                    Some(s) => Some(String::from_str(s)),
                    None => None,
                },
            },
        },
    }
}

/// Whether a character is a quote marker around a version value.
pub open spec fn spec_is_quote(c: char) -> bool {
    c == '"' || c == '\''
}

/// A sequence without its leading quote markers.
pub open spec fn spec_trim_quotes_start(s: Seq<char>) -> Seq<char>
    decreases s.len(),
{
    if s.len() > 0 && spec_is_quote(s[0]) {
        spec_trim_quotes_start(s.drop_first())
    } else {
        s
    }
}

/// A sequence without its trailing quote markers.
pub open spec fn spec_trim_quotes_end(s: Seq<char>) -> Seq<char>
    decreases s.len(),
{
    if s.len() > 0 && spec_is_quote(s.last()) {
        spec_trim_quotes_end(s.drop_last())
    } else {
        s
    }
}

/// A sequence without its leading and trailing quote markers.
pub open spec fn spec_trim_quotes(s: Seq<char>) -> Seq<char> {
    spec_trim_quotes_end(spec_trim_quotes_start(s))
}

fn is_quote(c: char) -> (r: bool)
    ensures
        r == spec_is_quote(c),
{
    c == '"' || c == '\''
}

fn trim_quotes_start_slice<'a>(c: &'a [char]) -> (r: &'a [char])
    ensures
        r@ == spec_trim_quotes_start(c@),
    decreases c@.len(),
{
    if c.len() > 0 && is_quote(c[0]) {
        let rest = slice_subrange(c, 1, c.len());
        assert(rest@ =~= c@.drop_first());
        trim_quotes_start_slice(rest)
    } else {
        c
    }
}

fn trim_quotes_end_slice<'a>(c: &'a [char]) -> (r: &'a [char])
    ensures
        r@ == spec_trim_quotes_end(c@),
    decreases c@.len(),
{
    if c.len() > 0 && is_quote(c[c.len() - 1]) {
        let rest = slice_subrange(c, 0, c.len() - 1);
        assert(rest@ =~= c@.drop_last());
        trim_quotes_end_slice(rest)
    } else {
        c
    }
}

/// What a bootstrap install script's version line yields: for a line whose
/// trimmed form starts with `VER=`, the value after it, trimmed and without
/// surrounding quotes.
pub open spec fn spec_ver_of_line(line: Seq<char>) -> Option<Seq<char>> {
    let t = spec_trim(line);
    if spec_starts_with(t, seq!['V', 'E', 'R', '=']) {
        Some(spec_trim_quotes(spec_trim(t.skip(4))))
    } else {
        None
    }
}

/// The version a bootstrap install script declares: the value of its first
/// `VER=` line, if any.
pub open spec fn spec_factory_version(s: Seq<char>) -> Option<Seq<char>>
    decreases s.len(),
{
    if s.len() == 0 {
        None
    } else {
        match spec_ver_of_line(spec_first_line(s)) {
            Some(v) => Some(v),
            None => spec_factory_version(spec_after_line(s)),
        }
    }
}

fn ver_of_line<'a>(line: &'a [char]) -> (r: Option<&'a [char]>)
    ensures
        match r {
            Some(v) => spec_ver_of_line(line@) == Some(v@),
            None => spec_ver_of_line(line@) is None,
        },
{
    let t = trim_slice(line);
    let pat: [char; 4] = ['V', 'E', 'R', '='];
    let pats: &[char] = pat.as_slice();
    proof {
        assert(pats@ =~= seq!['V', 'E', 'R', '=']);
    }
    if starts_with_slice(t, pats) {
        proof {
            lemma_starts_with_len(t@, seq!['V', 'E', 'R', '=']);
        }
        let v = slice_subrange(t, 4, t.len());
        assert(v@ =~= t@.skip(4));
        Some(trim_quotes_end_slice(trim_quotes_start_slice(trim_slice(v))))
    } else {
        None
    }
}

fn factory_scan<'a>(c: &'a [char]) -> (r: Option<&'a [char]>)
    ensures
        match r {
            Some(v) => spec_factory_version(c@) == Some(v@),
            None => spec_factory_version(c@) is None,
        },
    decreases c@.len(),
{
    if c.len() == 0 {
        return None;
    }
    let (line, rest) = split_first_line(c);
    match ver_of_line(line) {
        Some(v) => Some(v),
        None => factory_scan(rest),
    }
}

/// The version declared by a bootstrap install script: the value of its
/// first `VER=` line, with surrounding quotes removed.
pub fn extract_factory_version(script: &str) -> (r: Option<String>)
    ensures
        match r {
            Some(v) => spec_factory_version(script@) == Some(v@),
            None => spec_factory_version(script@) is None,
        },
{
    let cs = chars_of(script);
    match factory_scan(cs.as_slice()) {
        Some(v) => Some(string_from_chars(v)),
        None => None,
    }
}

/// The latest-version entry a name resolves to: the last pair with that
/// name wins, as a map filled from the pairs in order would have it.
pub open spec fn spec_lookup_latest(
    resolved: Seq<(String, Option<String>)>,
    name: Seq<char>,
) -> Option<Option<Seq<char>>>
    decreases resolved.len(),
{
    if resolved.len() == 0 {
        None
    } else {
        let lastp = resolved.last();
        if lastp.0@ == name {
            Some(
                match lastp.1 {
                    Some(v) => Some(v@),
                    None => None,
                },
            )
        } else {
            spec_lookup_latest(resolved.drop_last(), name)
        }
    }
}

fn lookup_latest(resolved: &Vec<(String, Option<String>)>, name: &str) -> (r: Option<
    Option<String>,
>)
    ensures
        match r {
            Some(o) => spec_lookup_latest(resolved@, name@) == Some(
                match o {
                    Some(v) => Some(v@),
                    None => None::<Seq<char>>,
                },
            ),
            None => spec_lookup_latest(resolved@, name@) is None,
        },
{
    let mut j: usize = resolved.len();
    assert(resolved@.take(j as int) =~= resolved@);
    while j > 0
        invariant
            j <= resolved@.len(),
            spec_lookup_latest(resolved@, name@) == spec_lookup_latest(
                resolved@.take(j as int),
                name@,
            ),
        decreases j,
    {
        proof {
            assert(resolved@.take(j as int).last() == resolved@[j - 1]);
            assert(resolved@.take(j as int).drop_last() =~= resolved@.take(j - 1));
        }
        let pair = &resolved[j - 1];
        if str_eq(pair.0.as_str(), name) {
            let v: Option<String> = match &pair.1 {
                Some(x) => Some(x.clone()),
                None => None,
            };
            return Some(v);
        }
        j = j - 1;
    }
    assert(resolved@.take(0) =~= Seq::<(String, Option<String>)>::empty());
    None
}

/// Fill in the latest known release of each tool from resolved lookups: a
/// tool whose name a lookup names gets that lookup's result (even where it
/// is "nothing found"); every other field, and every unnamed tool, stays as
/// it was.
pub fn apply_latest_versions(
    tools: Vec<ToolVersion>,
    resolved: &Vec<(String, Option<String>)>,
) -> (r: Vec<ToolVersion>)
    ensures
        r@.len() == tools@.len(),
        forall|i: int|
            0 <= i < tools@.len() ==> {
                let t0 = #[trigger] tools@[i];
                let t1 = r@[i];
                &&& t1.name == t0.name
                &&& t1.identifier == t0.identifier
                &&& t1.installed == t0.installed
                &&& (match spec_lookup_latest(resolved@, t0.name@) {
                    Some(l) => (match t1.latest {
                        Some(x) => l == Some(x@),
                        None => l is None,
                    }),
                    None => t1.latest == t0.latest,
                })
            },
{
    let ghost tools0 = tools@;
    let mut out: Vec<ToolVersion> = Vec::new();
    let mut rem = tools;
    while rem.len() > 0
        invariant
            out@.len() + rem@.len() == tools0.len(),
            forall|k: int| 0 <= k < rem@.len() ==> rem@[k] == tools0[out@.len() + k],
            forall|i: int|
                0 <= i < out@.len() ==> {
                    let t0 = #[trigger] tools0[i];
                    let t1 = out@[i];
                    &&& t1.name == t0.name
                    &&& t1.identifier == t0.identifier
                    &&& t1.installed == t0.installed
                    &&& (match spec_lookup_latest(resolved@, t0.name@) {
                        Some(l) => (match t1.latest {
                            Some(x) => l == Some(x@),
                            None => l is None,
                        }),
                        None => t1.latest == t0.latest,
                    })
                },
        decreases rem@.len(),
    {
        let t = rem.remove(0);
        match lookup_latest(resolved, t.name.as_str()) {
            Some(l) => {
                out.push(ToolVersion { latest: l, ..t });
            },
            None => {
                out.push(t);
            },
        }
    }
    out
}

} // verus!

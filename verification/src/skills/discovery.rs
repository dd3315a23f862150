//! Skill metadata: the YAML-frontmatter parser for SKILL.md files.
//!
//! Reading directories and files is the caller's business; this module takes
//! a file's text and extracts the skill's name and description.

use vstd::prelude::*;
use vstd::slice::slice_subrange;
use crate::strutil::{
    chars_of, string_from_chars, trim_slice, starts_with_slice, find_slice, split_first_line,
    spec_trim, spec_starts_with, spec_find, spec_first_line, spec_after_line,
    lemma_starts_with_len,
};

verus! {

/// A skill found in a repository.
pub struct Skill {
    /// Skill name from the frontmatter
    pub name: String,
    /// Description from the frontmatter
    pub description: Option<String>,
    /// Path to the skill directory (the one containing SKILL.md)
    pub path: String,
}

/// Errors of the skill modules.
#[derive(Debug, Clone, Copy, PartialEq, Eq, Structural)]
pub enum SkillError {
    /// The file does not start with a YAML frontmatter marker.
    NoFrontmatter,
    /// The frontmatter is not closed by a second marker.
    UnclosedFrontmatter,
    /// The frontmatter has no name field.
    MissingName,
    /// A repository is neither a URL nor an owner/repo shorthand.
    InvalidRepoFormat,
}

impl SkillError {
    /// A short human-readable description.
    pub fn describe(&self) -> (r: &'static str)
        ensures
            *self is NoFrontmatter ==> r@ == "SKILL.md must start with YAML frontmatter (---)"@,
            *self is UnclosedFrontmatter ==> r@
                == "SKILL.md frontmatter not properly closed with ---"@,
            *self is MissingName ==> r@ == "SKILL.md must have a 'name' field in frontmatter"@,
            *self is InvalidRepoFormat ==> r@
                == "Invalid repository format. Use 'owner/repo' or full URL"@,
    {
        match self {
            SkillError::NoFrontmatter => "SKILL.md must start with YAML frontmatter (---)",
            SkillError::UnclosedFrontmatter => "SKILL.md frontmatter not properly closed with ---",
            SkillError::MissingName => "SKILL.md must have a 'name' field in frontmatter",
            SkillError::InvalidRepoFormat => "Invalid repository format. Use 'owner/repo' or full URL",
        }
    }
}

/// A sequence without its leading double quotes.
pub open spec fn spec_trim_dq_start(s: Seq<char>) -> Seq<char>
    decreases s.len(),
{
    if s.len() > 0 && s[0] == '"' {
        spec_trim_dq_start(s.drop_first())
    } else {
        s
    }
}

/// A sequence without its trailing double quotes.
pub open spec fn spec_trim_dq_end(s: Seq<char>) -> Seq<char>
    decreases s.len(),
{
    if s.len() > 0 && s.last() == '"' {
        spec_trim_dq_end(s.drop_last())
    } else {
        s
    }
}

/// A sequence without its surrounding double quotes.
pub open spec fn spec_trim_dq(s: Seq<char>) -> Seq<char> {
    spec_trim_dq_end(spec_trim_dq_start(s))
}

fn trim_dq_start_slice<'a>(c: &'a [char]) -> (r: &'a [char])
    ensures
        r@ == spec_trim_dq_start(c@),
    decreases c@.len(),
{
    if c.len() > 0 && c[0] == '"' {
        let rest = slice_subrange(c, 1, c.len());
        assert(rest@ =~= c@.drop_first());
        trim_dq_start_slice(rest)
    } else {
        c
    }
}

fn trim_dq_end_slice<'a>(c: &'a [char]) -> (r: &'a [char])
    ensures
        r@ == spec_trim_dq_end(c@),
    decreases c@.len(),
{
    if c.len() > 0 && c[c.len() - 1] == '"' {
        let rest = slice_subrange(c, 0, c.len() - 1);
        assert(rest@ =~= c@.drop_last());
        trim_dq_end_slice(rest)
    } else {
        c
    }
}

/// What one frontmatter line yields for a field: where the trimmed line
/// starts with the key, the value after it, trimmed and without surrounding
/// double quotes.
pub open spec fn spec_line_field(line: Seq<char>, key: Seq<char>) -> Option<Seq<char>> {
    let t = spec_trim(line);
    if spec_starts_with(t, key) {
        Some(spec_trim_dq(spec_trim(t.skip(key.len() as int))))
    } else {
        None
    }
}

/// The value of a field over a whole frontmatter text: the last matching
/// line wins, as a scan that overwrites earlier matches would have it.
pub open spec fn spec_field_scan(yaml: Seq<char>, key: Seq<char>) -> Option<Seq<char>>
    decreases yaml.len(),
{
    if yaml.len() == 0 {
        None
    } else {
        match spec_field_scan(spec_after_line(yaml), key) {
            Some(v) => Some(v),
            None => spec_line_field(spec_first_line(yaml), key),
        }
    }
}

fn line_field<'a>(line: &'a [char], key: &[char]) -> (r: Option<&'a [char]>)
    ensures
        match r {
            Some(v) => spec_line_field(line@, key@) == Some(v@),
            None => spec_line_field(line@, key@) is None,
        },
{
    let t = trim_slice(line);
    if starts_with_slice(t, key) {
        proof {
            lemma_starts_with_len(t@, key@);
        }
        let v = slice_subrange(t, key.len(), t.len());
        assert(v@ =~= t@.skip(key@.len() as int));
        Some(trim_dq_end_slice(trim_dq_start_slice(trim_slice(v))))
    } else {
        None
    }
}

fn field_scan<'a>(c: &'a [char], key: &[char]) -> (r: Option<&'a [char]>)
    ensures
        match r {
            Some(v) => spec_field_scan(c@, key@) == Some(v@),
            None => spec_field_scan(c@, key@) is None,
        },
    decreases c@.len(),
{
    if c.len() == 0 {
        return None;
    }
    let (line, rest) = split_first_line(c);
    match field_scan(rest, key) {
        Some(v) => Some(v),
        None => line_field(line, key),
    }
}

/// What parsing a SKILL.md frontmatter gives: the name and the optional
/// description, or the error naming what is wrong with the file.
pub open spec fn spec_frontmatter(content: Seq<char>) -> Result<
    (Seq<char>, Option<Seq<char>>),
    SkillError,
> {
    let c = spec_trim(content);
    if !spec_starts_with(c, seq!['-', '-', '-']) {
        Err(SkillError::NoFrontmatter)
    } else {
        let rest = c.skip(3);
        match spec_find(rest, seq!['-', '-', '-']) {
            None => Err(SkillError::UnclosedFrontmatter),
            Some(e) => {
                let yaml = rest.take(e);
                match spec_field_scan(yaml, seq!['n', 'a', 'm', 'e', ':']) {
                    None => Err(SkillError::MissingName),
                    Some(nm) => Ok(
                        (
                            nm,
                            spec_field_scan(
                                yaml,
                                seq!['d', 'e', 's', 'c', 'r', 'i', 'p', 't', 'i', 'o', 'n', ':'],
                            ),
                        ),
                    ),
                }
            },
        }
    }
}

/// Parse a SKILL.md text: its YAML frontmatter sits between `---` markers
/// and must carry a name; a description is optional, and the last occurrence
/// of a field wins.
pub fn parse_frontmatter(content: &str) -> (r: Result<(String, Option<String>), SkillError>)
    ensures
        ({
            match r {
                Ok(p) => {
                    &&& spec_frontmatter(content@) matches Ok(q)
                    &&& q.0 == p.0@
                    &&& (match p.1 {
                        Some(d) => q.1 == Some(d@),
                        None => q.1 is None,
                    })
                },
                Err(e) => spec_frontmatter(content@) == Err::<
                    (Seq<char>, Option<Seq<char>>),
                    SkillError,
                >(e),
            }
        }),
{
    let cs = chars_of(content);
    let c = trim_slice(cs.as_slice());
    let dash: [char; 3] = ['-', '-', '-'];
    let dashes: &[char] = dash.as_slice();
    proof {
        assert(dashes@ =~= seq!['-', '-', '-']);
    }
    if !starts_with_slice(c, dashes) {
        return Err(SkillError::NoFrontmatter);
    }
    proof {
        lemma_starts_with_len(c@, seq!['-', '-', '-']);
    }
    let rest = slice_subrange(c, 3, c.len());
    assert(rest@ =~= c@.skip(3));
    match find_slice(rest, dashes) {
        None => Err(SkillError::UnclosedFrontmatter),
        Some(e) => {
            let yaml = slice_subrange(rest, 0, e);
            assert(yaml@ =~= rest@.take(e as int));
            let namekey: [char; 5] = ['n', 'a', 'm', 'e', ':'];
            let namekeys: &[char] = namekey.as_slice();
            proof {
                assert(namekeys@ =~= seq!['n', 'a', 'm', 'e', ':']);
            }
            match field_scan(yaml, namekeys) {
                None => Err(SkillError::MissingName),
                Some(nm) => {
                    let desckey: [char; 12] = [
                        'd',
                        'e',
                        's',
                        'c',
                        'r',
                        'i',
                        'p',
                        't',
                        'i',
                        'o',
                        'n',
                        ':',
                    ];
                    let desckeys: &[char] = desckey.as_slice();
                    proof {
                        assert(desckeys@ =~= seq![
                            'd', 'e', 's', 'c', 'r', 'i', 'p', 't', 'i', 'o', 'n', ':',
                        ]);
                    }
                    let d = match field_scan(yaml, desckeys) {
                        Some(dv) => Some(string_from_chars(dv)),
                        None => None,
                    };
                    Ok((string_from_chars(nm), d))
                },
            }
        },
    }
}

} // verus!

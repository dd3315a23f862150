//! The decision parts of the skill actions. Cloning repositories, walking
//! directories and copying files stay with the caller; what stands here is
//! the resolution of a repository argument to a clone URL.

use vstd::prelude::*;
use crate::strutil::{chars_of, starts_with_slice, find_slice, spec_starts_with, spec_find};
use crate::skills::discovery::SkillError;

verus! {

/// What a repository argument resolves to: a full URL is taken as it is, an
/// `owner/repo` shorthand becomes a GitHub clone URL, anything else is
/// rejected.
pub open spec fn spec_repo_url(repo: Seq<char>) -> Option<Seq<char>> {
    if spec_starts_with(repo, "https://"@) || spec_starts_with(repo, "git@"@) {
        Some(repo)
    } else if spec_find(repo, "/"@) is Some {
        Some("https://github.com/"@ + repo + ".git"@)
    } else {
        None
    }
}

/// Resolve a repository argument to a clone URL.
pub fn parse_repo_url(repo: &str) -> (r: Result<String, SkillError>)
    ensures
        r matches Ok(u) ==> spec_repo_url(repo@) == Some(u@),
        r matches Err(e) ==> spec_repo_url(repo@) is None && e == SkillError::InvalidRepoFormat,
        r is Ok <==> spec_repo_url(repo@) is Some,
{
    let cs = chars_of(repo);
    let https = chars_of("https://");
    let gitat = chars_of("git@");
    let slash = chars_of("/");
    if starts_with_slice(cs.as_slice(), https.as_slice()) || starts_with_slice(
        cs.as_slice(),
        gitat.as_slice(),
    ) {
        Ok(repo.to_owned())
    } else if find_slice(cs.as_slice(), slash.as_slice()).is_some() {
        Ok(String::from_str("https://github.com/").concat(repo).concat(".git"))
    } else {
        Err(SkillError::InvalidRepoFormat)
    }
}

} // verus!

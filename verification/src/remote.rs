//! The remote URL resolver: extracts the owner and repository name from
//! a remote URL in one of the two recognised shapes. Matching is by
//! fixed prefix and suffix, all-or-nothing: anything else is rejected
//! with a message naming the input, since a wrong pair would direct a
//! remote API call at the wrong repository.

use vstd::prelude::*;

use crate::text::{
    find_char, has_prefix, has_suffix, spec_find, spec_has_prefix, spec_has_suffix,
};

verus! {

/// The prefix of an SSH-style remote URL.
pub open spec fn spec_ssh_prefix() -> Seq<char> {
    "git@github.com:"@
}

/// The prefix of an HTTPS-style remote URL.
pub open spec fn spec_https_prefix() -> Seq<char> {
    "https://github.com/"@
}

/// The suffix both recognised shapes must carry.
pub open spec fn spec_git_suffix() -> Seq<char> {
    ".git"@
}

/// The owner and repository named by the remainder of a URL once its
/// recognised prefix is gone: the remainder must end in `.git`, and what
/// is left of it splits at its first slash.
pub open spec fn spec_resolve_tail(t: Seq<char>) -> Option<(Seq<char>, Seq<char>)> {
    if !spec_has_suffix(t, spec_git_suffix()) {
        None
    } else {
        let body = t.take(t.len() - 4);
        let i = spec_find(body, '/');
        if i < body.len() {
            Some((body.take(i), body.skip(i + 1)))
        } else {
            None
        }
    }
}

/// The owner and repository a remote URL resolves to, when it has one of
/// the two recognised shapes.
pub open spec fn spec_resolve(u: Seq<char>) -> Option<(Seq<char>, Seq<char>)> {
    if spec_has_prefix(u, spec_ssh_prefix()) {
        spec_resolve_tail(u.skip(spec_ssh_prefix().len() as int))
    } else if spec_has_prefix(u, spec_https_prefix()) {
        spec_resolve_tail(u.skip(spec_https_prefix().len() as int))
    } else {
        None
    }
}

/// Opening of the message rejecting an unrecognised URL.
pub open spec fn spec_resolve_err_head() -> Seq<char> {
    "unrecognized GitHub remote URL '"@
}

/// Close of the message rejecting an unrecognised URL.
pub open spec fn spec_resolve_err_tail() -> Seq<char> {
    "': expected 'https://github.com/owner/repo.git' or 'git@github.com:owner/repo.git'"@
}

fn resolve_tail(t: &str) -> (r: Option<(String, String)>)
    ensures
        match r {
            Some(p) => spec_resolve_tail(t@) == Some((p.0@, p.1@)),
            None => spec_resolve_tail(t@) is None,
        },
{
    if !has_suffix(t, ".git") {
        return None;
    }
    proof {
        reveal_strlit(".git");
    }
    let n = t.unicode_len();
    let body = t.substring_char(0, n - 4);
    proof {
        assert(body@ =~= t@.take(t@.len() - 4));
    }
    let i = find_char(body, '/');
    let bn = body.unicode_len();
    if i < bn {
        let owner_part = body.substring_char(0, i).to_owned();
        let repo_part = body.substring_char(i + 1, bn).to_owned();
        proof {
            assert(owner_part@ =~= body@.take(i as int));
            assert(repo_part@ =~= body@.skip(i as int + 1));
        }
        Some((owner_part, repo_part))
    } else {
        None
    }
}

/// Resolves a remote URL to its `(owner, repository)` pair. Succeeds
/// exactly on the two recognised shapes; everything else is rejected
/// whole, with a message naming the input.
pub fn parse_github_owner_and_repo(url: &str) -> (r: Result<(String, String), String>)
    ensures
        match r {
            Ok(p) => spec_resolve(url@) == Some((p.0@, p.1@)),
            Err(e) => spec_resolve(url@) is None && e@ == spec_resolve_err_head() + url@
                + spec_resolve_err_tail(),
        },
{
    let n = url.unicode_len();
    let tail: Option<(String, String)>;
    if has_prefix(url, "git@github.com:") {
        let m = "git@github.com:".unicode_len();
        let rest = url.substring_char(m, n);
        proof {
            assert(rest@ =~= url@.skip(spec_ssh_prefix().len() as int));
        }
        tail = resolve_tail(rest);
    } else if has_prefix(url, "https://github.com/") {
        let m = "https://github.com/".unicode_len();
        let rest = url.substring_char(m, n);
        proof {
            assert(rest@ =~= url@.skip(spec_https_prefix().len() as int));
        }
        tail = resolve_tail(rest);
    } else {
        tail = None;
    }
    match tail {
        Some(p) => Ok(p),
        None => {
            let e = "unrecognized GitHub remote URL '".to_owned().concat(url).concat(
                "': expected 'https://github.com/owner/repo.git' or 'git@github.com:owner/repo.git'",
            );
            Err(e)
        },
    }
}

} // verus!

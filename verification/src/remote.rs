//! The rules of synchronising with a remote: what is sent, and how a
//! rejected push is classified.

use vstd::prelude::*;
use crate::error::{Failure, GitError, GitErrorView};
use crate::head::{has_commit, HeadState};
use crate::model::texts;
use crate::text::{occurs_in, str_contains};

verus! {

/// The refspec that sends a local branch to the branch of the same name:
/// no force, no delete.
pub open spec fn refspec_of(branch: Seq<char>) -> Seq<char> {
    "refs/heads/"@ + branch + ":refs/heads/"@ + branch
}

/// Builds the push refspec of `branch`.
pub fn push_refspec(branch: &str) -> (r: String)
    ensures
        r@ == refspec_of(branch@),
{
    let mut out = String::from_str("refs/heads/");
    out.append(branch);
    out.append(":refs/heads/");
    out.append(branch);
    out
}

/// The configuration key that holds the URL of `remote`.
pub open spec fn url_key_of(remote: Seq<char>) -> Seq<char> {
    "remote."@ + remote + ".url"@
}

/// Builds the configuration key of the URL of `remote`.
pub fn remote_url_key(remote: &str) -> (r: String)
    ensures
        r@ == url_key_of(remote@),
{
    let mut out = String::from_str("remote.");
    out.append(remote);
    out.append(".url");
    out
}

/// The name of the branch of `remote` that a pushed `branch` tracks.
pub open spec fn upstream_of(remote: Seq<char>, branch: Seq<char>) -> Seq<char> {
    remote + "/"@ + branch
}

/// Builds the upstream name of `branch` on `remote`.
pub fn upstream_name(remote: &str, branch: &str) -> (r: String)
    ensures
        r@ == upstream_of(remote@, branch@),
{
    let mut out = String::from_str(remote);
    out.append("/");
    out.append(branch);
    out
}

/// The transport's message marks a rejected authentication.
pub open spec fn marks_authentication(message: Seq<char>) -> bool {
    occurs_in(message, "authentication"@) || occurs_in(message, "403"@) || occurs_in(
        message,
        "401"@,
    )
}

/// The failure that a rejected push of `branch` is reported as, by the
/// markers in the transport's message: authentication first, then
/// divergence, then a missing upstream; otherwise the message is passed
/// through.
pub open spec fn push_failure_of(message: Seq<char>, branch: Seq<char>) -> GitErrorView {
    if marks_authentication(message) {
        GitErrorView::AuthenticationFailed
    } else if occurs_in(message, "non-fast-forward"@) {
        GitErrorView::NonFastForward
    } else if occurs_in(message, "no upstream"@) {
        GitErrorView::NoUpstreamSet(branch)
    } else {
        GitErrorView::PushFailed(message)
    }
}

/// Classifies the transport's `message` for a rejected push of `branch`.
pub fn classify_push_failure(message: &str, branch: &str) -> (r: GitError)
    ensures
        r@ == push_failure_of(message@, branch@),
{
    if str_contains(message, "authentication") || str_contains(message, "403") || str_contains(
        message,
        "401",
    ) {
        GitError::AuthenticationFailed
    } else if str_contains(message, "non-fast-forward") {
        GitError::NonFastForward
    } else if str_contains(message, "no upstream") {
        GitError::NoUpstreamSet(String::from_str(branch))
    } else {
        GitError::PushFailed(String::from_str(message))
    }
}

/// The result of a push once the transport has answered: a rejection is the
/// failure that its message is classified as; a push that was accepted
/// succeeds, whether or not the upstream could be linked afterwards.
pub fn push_result(rejection: Option<&str>, branch: &str, upstream_linked: bool) -> (r: Result<
    (),
    GitError,
>)
    ensures
        match rejection {
            Some(message) => r matches Err(e) && e@ == push_failure_of(message@, branch@),
            None => r is Ok,
        },
{
    match rejection {
        Some(message) => Err(classify_push_failure(message, branch)),
        None => Ok(()),
    }
}

/// The upstream that a branch is linked to after a push that was accepted:
/// the branch of the same name on the remote when the branch tracks nothing,
/// and none when it tracks something already, which is left as it is.
pub fn upstream_to_link(has_upstream: bool, remote: &str, branch: &str) -> (r: Option<String>)
    ensures
        match r {
            Some(name) => !has_upstream && name@ == upstream_of(remote@, branch@),
            None => has_upstream,
        },
{
    if has_upstream {
        None
    } else {
        Some(upstream_name(remote, branch))
    }
}

/// What the checks before a push found: whether HEAD points at a commit,
/// whether the remote is configured, whether the local branch exists.
#[derive(Clone, Copy, Debug)]
pub struct PushChecks {
    pub has_commits: bool,
    pub remote_exists: bool,
    pub branch_exists: bool,
}

/// The failure that the checks before a push give, if any: an empty
/// repository first, then a missing remote, then a missing branch.
pub open spec fn precondition_failure_of(
    checks: PushChecks,
    remote: Seq<char>,
    branch: Seq<char>,
) -> Option<GitErrorView> {
    if !checks.has_commits {
        Some(GitErrorView::EmptyRepository)
    } else if !checks.remote_exists {
        Some(GitErrorView::RemoteNotFound(remote))
    } else if !checks.branch_exists {
        Some(GitErrorView::LocalBranchMissing(branch))
    } else {
        None
    }
}

/// Decides from the local checks whether a push of `branch` to `remote` may
/// contact the remote at all.
pub fn check_push_preconditions(checks: PushChecks, remote: &str, branch: &str) -> (r: Result<
    (),
    GitError,
>)
    ensures
        match precondition_failure_of(checks, remote@, branch@) {
            Some(failure) => r matches Err(e) && e@ == failure,
            None => r is Ok,
        },
{
    if !checks.has_commits {
        Err(GitError::EmptyRepository)
    } else if !checks.remote_exists {
        Err(GitError::RemoteNotFound(String::from_str(remote)))
    } else if !checks.branch_exists {
        Err(GitError::LocalBranchMissing(String::from_str(branch)))
    } else {
        Ok(())
    }
}

/// A push to a remote that is not configured stops at `RemoteNotFound`, and a
/// push from a repository without commits stops at `EmptyRepository`,
/// whatever else holds: both are decided by the local checks, before the
/// remote is contacted.
pub proof fn lemma_push_stops_before_remote(
    checks: PushChecks,
    remote: Seq<char>,
    branch: Seq<char>,
)
    ensures
        !checks.has_commits ==> precondition_failure_of(checks, remote, branch) == Some(
            GitErrorView::EmptyRepository,
        ),
        checks.has_commits && !checks.remote_exists ==> precondition_failure_of(
            checks,
            remote,
            branch,
        ) == Some(GitErrorView::RemoteNotFound(remote)),
        precondition_failure_of(checks, remote, branch) is None <==> checks.has_commits
            && checks.remote_exists && checks.branch_exists,
{
}

/// Whether a read of HEAD shows that there is nothing to push: HEAD is
/// unborn, or resolves to a reference without a target. A read that failed
/// otherwise shows nothing.
pub open spec fn shows_no_commit(state: Result<HeadState, Failure>) -> bool {
    state matches Ok(s) && !has_commit(s)
}

/// Tests whether a read of HEAD shows that there is nothing to push.
pub fn lacks_commits(state: &Result<HeadState, Failure>) -> (r: bool)
    ensures
        r == shows_no_commit(*state),
{
    match state {
        Ok(HeadState::Unborn) => true,
        Ok(HeadState::Resolved(head)) => head.target.is_none(),
        Err(_) => false,
    }
}

/// The refspecs that are present, in their order.
pub open spec fn present_of(specs: Seq<Option<String>>) -> Seq<Seq<char>> {
    specs.filter(|s: Option<String>| s is Some).map_values(|s: Option<String>| s->0@)
}

/// Keeps the refspecs of a remote that could be read, in their order.
pub fn present_refspecs(specs: &Vec<Option<String>>) -> (r: Vec<String>)
    ensures
        texts(r@) == present_of(specs@),
{
    let mut out: Vec<String> = Vec::new();
    let mut i: usize = 0;
    let ghost keep = |s: Option<String>| s is Some;
    let ghost text = |s: Option<String>| s->0@;
    assert(specs@.take(0) == Seq::<Option<String>>::empty());
    while i < specs.len()
        invariant
            i <= specs.len(),
            keep == |s: Option<String>| s is Some,
            text == |s: Option<String>| s->0@,
            texts(out@) == specs@.take(i as int).filter(keep).map_values(text),
        decreases specs.len() - i,
    {
        proof {
            let before = specs@.take(i as int);
            assert(specs@.take(i + 1) == before.push(specs@[i as int]));
            before.lemma_filter_push(specs@[i as int], keep);
            if specs@[i as int] is Some {
                before.filter(keep).lemma_push_map_commute(text, specs@[i as int]);
            }
        }
        let ghost o0 = out@;
        match &specs[i] {
            Some(spec) => {
                out.push(spec.clone());
                assert(texts(out@) == texts(o0).push(spec@));
            },
            None => {},
        }
        i += 1;
    }
    assert(specs@.take(i as int) == specs@);
    out
}

/// The user that the agent is asked for when a fetch authenticates: the one
/// in the URL, else `git`.
pub open spec fn fetch_user_of(url_user: Option<&str>) -> Seq<char> {
    match url_user {
        Some(user) => user@,
        None => "git"@,
    }
}

/// Picks the user for the agent lookup of a fetch.
pub fn fetch_user(url_user: Option<&str>) -> (r: String)
    ensures
        r@ == fetch_user_of(url_user),
{
    match url_user {
        Some(user) => String::from_str(user),
        None => String::from_str("git"),
    }
}

} // verus!

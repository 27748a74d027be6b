//! The two topologies of a new commit.

use vstd::prelude::*;
use crate::error::{Failure, FailureKind, GitError, GitErrorView};
use crate::head::HeadState;

verus! {

/// How a new commit is attached to history.
#[derive(Debug)]
pub enum CommitPlan {
    /// The first commit: no parent, written to the default branch, to which
    /// HEAD is then pointed.
    Root,
    /// A commit on top of the commit that HEAD points at.
    Parented(git2::Oid),
}

/// The reference that a root commit is written to, and to which HEAD is
/// pointed afterwards: the default branch.
pub const ROOT_REFERENCE: &'static str = "refs/heads/main";

/// The reference that a commit on top of another moves.
pub const HEAD_REFERENCE: &'static str = "HEAD";

/// The parents of the commit that a plan creates.
pub open spec fn parents_of(plan: CommitPlan) -> Seq<git2::Oid> {
    match plan {
        CommitPlan::Root => Seq::empty(),
        CommitPlan::Parented(parent) => seq![parent],
    }
}

/// The plan for a state of HEAD, where there is one.
pub open spec fn plan_for(state: HeadState) -> Option<CommitPlan> {
    match state {
        HeadState::Unborn => Some(CommitPlan::Root),
        HeadState::Resolved(head) => match head.target {
            Some(target) => Some(CommitPlan::Parented(target)),
            None => None,
        },
    }
}

/// Chooses the topology of the next commit: a root commit while HEAD is
/// unborn, else a commit whose one parent is the target of HEAD. A HEAD that
/// resolves to a reference without a target is a failure.
pub fn commit_plan(state: &HeadState) -> (r: Result<CommitPlan, GitError>)
    ensures
        match plan_for(*state) {
            Some(plan) => r == Ok::<CommitPlan, GitError>(plan),
            None => r matches Err(e) && e@ == GitErrorView::Backend("HEAD has no target"@),
        },
{
    match state {
        HeadState::Unborn => Ok(CommitPlan::Root),
        HeadState::Resolved(head) => match head.target {
            Some(target) => Ok(CommitPlan::Parented(target)),
            None => Err(GitError::Backend(String::from_str("HEAD has no target"))),
        },
    }
}

/// What the backend is handed for a commit.
#[derive(Debug)]
pub struct CommitTarget {
    /// The reference that the commit is written to.
    pub update_ref: String,
    /// The one parent of the commit, or none.
    pub parent: Option<git2::Oid>,
    /// Whether HEAD is pointed at `update_ref` once the commit is written.
    pub move_head: bool,
}

/// The target of a plan. A root commit has no parent, is written to the
/// default branch, and HEAD is then pointed there. A commit on top of another
/// has that commit as its parent and moves HEAD's own reference.
pub open spec fn is_target_of(target: CommitTarget, plan: CommitPlan) -> bool {
    match plan {
        CommitPlan::Root => target.update_ref@ == ROOT_REFERENCE@ && target.parent is None
            && target.move_head,
        CommitPlan::Parented(parent) => target.update_ref@ == HEAD_REFERENCE@ && target.parent
            == Some(parent) && !target.move_head,
    }
}

/// Lays out what the backend is handed for a plan.
pub fn commit_target(plan: &CommitPlan) -> (r: CommitTarget)
    ensures
        is_target_of(r, *plan),
{
    match plan {
        CommitPlan::Root => CommitTarget {
            update_ref: String::from_str(ROOT_REFERENCE),
            parent: None,
            move_head: true,
        },
        CommitPlan::Parented(parent) => CommitTarget {
            update_ref: String::from_str(HEAD_REFERENCE),
            parent: Some(*parent),
            move_head: false,
        },
    }
}

/// The failure reported when the identity of the committer cannot be had.
pub open spec fn identity_failure_of(failure: Failure) -> GitErrorView {
    if failure.kind == FailureKind::NotFound {
        GitErrorView::ConfigIncomplete
    } else {
        GitErrorView::Backend(failure.display@)
    }
}

/// Maps a failure to read the committer's identity: an identity that is not
/// set is reported as missing configuration, not as a failure of the
/// backend.
pub fn identity_failure(failure: &Failure) -> (r: GitError)
    ensures
        r@ == identity_failure_of(*failure),
{
    if failure.kind == FailureKind::NotFound {
        GitError::ConfigIncomplete
    } else {
        GitError::from_failure(failure)
    }
}

/// While HEAD is unborn the next commit has no parent; once HEAD points at a
/// commit, the next commit has exactly that commit as its one parent.
pub proof fn lemma_commit_topology(state: HeadState)
    ensures
        state is Unborn ==> plan_for(state) is Some && parents_of(plan_for(state)->0).len() == 0,
        state matches HeadState::Resolved(head) ==> (head.target is Some ==> plan_for(state) is Some
            && parents_of(plan_for(state)->0) == seq![head.target->0]),
{
}

} // verus!

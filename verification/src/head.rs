//! What HEAD resolves to, and the branch name shown for it.

use vstd::prelude::*;
use crate::error::{Failure, FailureKind};

verus! {

/// The reference that HEAD resolved to, in the values that the core reads.
#[derive(Debug)]
pub struct HeadRef {
    /// The short name of the reference; absent when it is not valid UTF-8.
    pub shorthand: Option<String>,
    /// The commit that the reference points at, when it is a direct one.
    pub target: Option<git2::Oid>,
}

/// The state of HEAD that every operation starts from.
#[derive(Debug)]
pub enum HeadState {
    /// HEAD names a branch without a commit: the repository has no history.
    Unborn,
    /// HEAD resolved to a reference.
    Resolved(HeadRef),
}

/// The branch that a repository without commits is taken to be on.
pub open spec fn default_branch() -> Seq<char> {
    "main"@
}

/// The name shown for a resolved reference that has no readable short name.
pub open spec fn detached_label() -> Seq<char> {
    "HEAD"@
}

/// The state that a read of HEAD stands for: a failure of the unborn kind is
/// the state `Unborn`, every other failure stays a failure.
pub open spec fn head_state_of(read: Result<HeadRef, Failure>) -> Result<HeadState, Failure> {
    match read {
        Ok(head) => Ok(HeadState::Resolved(head)),
        Err(failure) => if failure.kind == FailureKind::UnbornBranch {
            Ok(HeadState::Unborn)
        } else {
            Err(failure)
        },
    }
}

/// Turns a read of HEAD into a state.
pub fn head_state(read: Result<HeadRef, Failure>) -> (r: Result<HeadState, Failure>)
    ensures
        r == head_state_of(read),
{
    match read {
        Ok(head) => Ok(HeadState::Resolved(head)),
        Err(failure) => {
            if failure.kind == FailureKind::UnbornBranch {
                Ok(HeadState::Unborn)
            } else {
                Err(failure)
            }
        },
    }
}

/// The branch name of a state.
pub open spec fn branch_label_of(state: HeadState) -> Seq<char> {
    match state {
        HeadState::Unborn => default_branch(),
        HeadState::Resolved(head) => match head.shorthand {
            Some(name) => name@,
            None => detached_label(),
        },
    }
}

/// The branch name shown for `state`: the default branch while there is no
/// commit, else the short name of the reference.
pub fn branch_label(state: &HeadState) -> (r: String)
    ensures
        r@ == branch_label_of(*state),
{
    match state {
        HeadState::Unborn => String::from_str("main"),
        HeadState::Resolved(head) => match &head.shorthand {
            Some(name) => name.clone(),
            None => String::from_str("HEAD"),
        },
    }
}

/// Whether HEAD points at a commit.
pub open spec fn has_commit(state: HeadState) -> bool {
    state matches HeadState::Resolved(head) && head.target is Some
}

/// A repository without commits is on the default branch, whose name is not
/// empty.
pub proof fn lemma_unborn_branch_is_named()
    ensures
        branch_label_of(HeadState::Unborn) == default_branch(),
        branch_label_of(HeadState::Unborn).len() > 0,
{
    reveal_strlit("main");
}

} // verus!

//! The repository handle and the operations that go through it.

use vstd::prelude::*;
use crate::backend::{
    backend_error, branch_reference, branch_set_upstream, branch_upstream, change_flags,
    commit_author_name,
    commit_message, commit_seconds, create_commit, default_signature, failure_of, find_commit,
    find_local_branch, find_remote, find_tree, index_add, index_remove,
    index_write, index_write_tree, list_changes, new_revwalk, oid_hex, open_repository,
    reference_shorthand, reference_target, remote_fetch, remote_fetch_refspecs, remote_push,
    repo_head, repo_index, revwalk_next, revwalk_push, revwalk_push_head, set_head,
};
use crate::commit::{commit_plan, commit_target, identity_failure};
use crate::credentials::{load_stored_credentials, resolve_credentials};
use crate::error::{Failure, FailureKind, GitError, GitErrorView};
use crate::head::{branch_label, head_state, HeadRef, HeadState};
use crate::history::{
    build_history, history_plan, is_marked_history, is_some_history, CommitInfo, HistoryPlan, SHORT_HASH_LEN,
    UPSTREAM_WALK_LIMIT,
};
use crate::model::{texts, GitCommit, GitStatus};
use crate::remote::{
    check_push_preconditions, lacks_commits, present_refspecs, push_refspec, push_result,
    upstream_to_link, PushChecks,
};
use crate::status::{build_status, snapshot_query, StatusRecord};

verus! {

/// A handle to the repository rooted at a path, or the recognised absence of
/// one. Opening never fails; every operation but the status fails with
/// `NotARepository` on a handle that holds none.
pub struct GitManager {
    repo: Option<git2::Repository>,
}

/// Reads HEAD and turns the read into a state. A HEAD that is unborn is a
/// state, so the failure that is left is never of that kind.
pub(crate) fn resolve_head(repo: &git2::Repository) -> (r: Result<HeadState, Failure>)
    ensures
        r matches Err(failure) ==> failure.kind != FailureKind::UnbornBranch,
{
    let read: Result<HeadRef, Failure> = match repo_head(repo) {
        Ok(head) => Ok(
            HeadRef { shorthand: reference_shorthand(&head), target: reference_target(&head) },
        ),
        Err(e) => Err(failure_of(&e)),
    };
    head_state(read)
}

/// Reads the changes of the working tree and the index as records, listed
/// with the query of a snapshot.
fn read_changes(repo: &git2::Repository) -> (r: Result<Vec<StatusRecord>, GitError>)
    ensures
        r matches Err(e) ==> e@ is Backend,
{
    let listed = match list_changes(repo, snapshot_query()) {
        Ok(listed) => listed,
        Err(e) => { return Err(backend_error(&e)); },
    };
    let mut records: Vec<StatusRecord> = Vec::new();
    let mut i: usize = 0;
    while i < listed.len()
        invariant
            i <= listed.len(),
        decreases listed.len() - i,
    {
        let path = match &listed[i].0 {
            Some(path) => Some(path.clone()),
            None => None,
        };
        records.push(StatusRecord { path, flags: change_flags(listed[i].1) });
        i += 1;
    }
    Ok(records)
}

/// The failures that a push of `branch` to `remote` can end in.
pub open spec fn is_push_failure(e: GitErrorView, remote: Seq<char>, branch: Seq<char>) -> bool {
    ||| e == GitErrorView::NotARepository
    ||| e == GitErrorView::EmptyRepository
    ||| e == GitErrorView::RemoteNotFound(remote)
    ||| e == GitErrorView::LocalBranchMissing(branch)
    ||| e == GitErrorView::AuthenticationFailed
    ||| e == GitErrorView::NonFastForward
    ||| e == GitErrorView::NoUpstreamSet(branch)
    ||| e is PushFailed
}

/// The tip of the upstream that the local branch `branch` tracks: none when
/// there is no such branch, when it tracks nothing, or when what it tracks
/// points at no commit.
fn tracked_tip(repo: &git2::Repository, branch: &str) -> (r: Option<git2::Oid>) {
    let local = match find_local_branch(repo, branch) {
        Ok(local) => local,
        Err(_) => { return None; },
    };
    match branch_upstream(&local) {
        Ok(upstream) => reference_target(branch_reference(&upstream)),
        Err(_) => None,
    }
}

/// Collects the identifiers reachable from `tip`, at most
/// `UPSTREAM_WALK_LIMIT` steps of the walk. Without a tip there is none, and
/// that is no failure; a step of the walk that fails is passed over.
fn collect_ancestors(repo: &git2::Repository, tip: Option<git2::Oid>) -> (r: Result<
    Vec<String>,
    GitError,
>)
    ensures
        tip is None ==> (r matches Ok(ids) && ids@.len() == 0),
        r matches Ok(ids) ==> ids@.len() <= UPSTREAM_WALK_LIMIT,
        r matches Err(e) ==> e@ is Backend,
{
    let mut ids: Vec<String> = Vec::new();
    let tip = match tip {
        Some(tip) => tip,
        None => { return Ok(ids); },
    };
    let mut walk = match new_revwalk(repo) {
        Ok(walk) => walk,
        Err(e) => { return Err(backend_error(&e)); },
    };
    if let Err(e) = revwalk_push(&mut walk, tip) {
        return Err(backend_error(&e));
    }
    let mut steps: usize = 0;
    while steps < UPSTREAM_WALK_LIMIT
        invariant
            ids@.len() <= steps <= UPSTREAM_WALK_LIMIT,
        decreases UPSTREAM_WALK_LIMIT - steps,
    {
        match revwalk_next(&mut walk) {
            None => { break ; },
            Some(Ok(id)) => { ids.push(oid_hex(id)); },
            Some(Err(_)) => {},
        }
        steps += 1;
    }
    Ok(ids)
}

/// Collects the identifiers reachable from the tip of the upstream that
/// `branch` tracks. A branch that tracks nothing has none.
fn collect_upstream(repo: &git2::Repository, branch: &str) -> (r: Result<Vec<String>, GitError>)
    ensures
        r matches Ok(ids) ==> ids@.len() <= UPSTREAM_WALK_LIMIT,
        r matches Err(e) ==> e@ is Backend,
{
    collect_ancestors(repo, tracked_tip(repo, branch))
}

/// Walks from HEAD and collects at most `limit` commits, newest first. The
/// first step that fails ends the walk with its failure.
fn collect_walk(repo: &git2::Repository, limit: usize) -> (r: Result<Vec<CommitInfo>, GitError>)
    ensures
        r matches Ok(commits) ==> commits@.len() <= limit,
        r matches Err(e) ==> e@ is Backend,
{
    let mut commits: Vec<CommitInfo> = Vec::new();
    let mut walk = match new_revwalk(repo) {
        Ok(walk) => walk,
        Err(e) => { return Err(backend_error(&e)); },
    };
    if let Err(e) = revwalk_push_head(&mut walk) {
        return Err(backend_error(&e));
    }
    while commits.len() < limit
        invariant
            commits@.len() <= limit,
        decreases limit - commits@.len(),
    {
        let id = match revwalk_next(&mut walk) {
            None => { break ; },
            Some(Ok(id)) => id,
            Some(Err(e)) => { return Err(backend_error(&e)); },
        };
        let commit = match find_commit(repo, id) {
            Ok(commit) => commit,
            Err(e) => { return Err(backend_error(&e)); },
        };
        commits.push(
            CommitInfo {
                id: oid_hex(id),
                message: commit_message(&commit),
                author: commit_author_name(&commit),
                seconds: commit_seconds(&commit),
            },
        );
    }
    Ok(commits)
}

impl GitManager {
    /// The handle holds a repository.
    pub closed spec fn holds_repo(&self) -> bool {
        self.repo is Some
    }

    /// The handle for the outcome of opening a repository: it holds the
    /// repository exactly when the opening succeeded.
    pub fn from_opened(opened: Result<git2::Repository, git2::Error>) -> (r: GitManager)
        ensures
            r.holds_repo() == (opened is Ok),
    {
        let repo = match opened {
            Ok(repo) => Some(repo),
            Err(_) => None,
        };
        GitManager { repo }
    }

    /// Opens the repository rooted at `repo_path`. This never fails: a path
    /// that is no repository root gives a handle that holds none.
    pub fn new(repo_path: &str) -> (r: GitManager) {
        GitManager::from_opened(open_repository(repo_path))
    }

    /// The repository that the handle holds, if any.
    pub(crate) fn repository(&self) -> (r: Option<&git2::Repository>)
        ensures
            r is Some == self.holds_repo(),
    {
        self.repo.as_ref()
    }

    /// Whether the handle holds a repository.
    #[verifier::when_used_as_spec(holds_repo)]
    pub fn is_git_repo(&self) -> (r: bool)
        ensures
            r == self.holds_repo(),
    {
        self.repo.is_some()
    }

    /// The snapshot of branch and change sets. A handle without a
    /// repository gives the empty snapshot. A repository without commits is
    /// on the default branch. Ignored files are left out, untracked files
    /// are listed, untracked directories are listed without their contents.
    pub fn get_status(&self, _repo_path: &str) -> (r: Result<GitStatus, GitError>)
        ensures
            !self.holds_repo() ==> (r matches Ok(s) && !s.is_git_repo && s.branch@.len() == 0
                && s.modified@.len() == 0 && s.untracked@.len() == 0 && s.staged@.len() == 0),
            self.holds_repo() ==> match r {
                Ok(s) => s.is_git_repo,
                Err(e) => e@ is Backend,
            },
            r matches Ok(s) ==> s.wf(),
    {
        let repo = match &self.repo {
            Some(repo) => repo,
            None => { return Ok(GitStatus::absent()); },
        };
        let state = match resolve_head(repo) {
            Ok(state) => state,
            Err(failure) => { return Err(GitError::from_failure(&failure)); },
        };
        let branch = branch_label(&state);
        let records = read_changes(repo)?;
        Ok(build_status(branch, &records))
    }

    /// Adds one path to the index and writes the index to disk.
    pub fn stage_file(&self, file_path: &str) -> (r: Result<(), GitError>)
        ensures
            !self.holds_repo() ==> (r matches Err(e) && e@ == GitErrorView::NotARepository),
            self.holds_repo() ==> (r matches Err(e) ==> e@ is Backend),
    {
        let repo = match &self.repo {
            Some(repo) => repo,
            None => { return Err(GitError::NotARepository); },
        };
        let mut index = match repo_index(repo) {
            Ok(index) => index,
            Err(e) => { return Err(backend_error(&e)); },
        };
        if let Err(e) = index_add(&mut index, file_path) {
            return Err(backend_error(&e));
        }
        if let Err(e) = index_write(&mut index) {
            return Err(backend_error(&e));
        }
        Ok(())
    }

    /// Removes one path from the index and writes the index to disk.
    pub fn unstage_file(&self, file_path: &str) -> (r: Result<(), GitError>)
        ensures
            !self.holds_repo() ==> (r matches Err(e) && e@ == GitErrorView::NotARepository),
            self.holds_repo() ==> (r matches Err(e) ==> e@ is Backend),
    {
        let repo = match &self.repo {
            Some(repo) => repo,
            None => { return Err(GitError::NotARepository); },
        };
        let mut index = match repo_index(repo) {
            Ok(index) => index,
            Err(e) => { return Err(backend_error(&e)); },
        };
        if let Err(e) = index_remove(&mut index, file_path) {
            return Err(backend_error(&e));
        }
        if let Err(e) = index_write(&mut index) {
            return Err(backend_error(&e));
        }
        Ok(())
    }

    /// Commits the index with `message` and returns the identifier of the
    /// new commit. The first commit of a repository has no parent and starts
    /// the default branch; every later one has the target of HEAD as its one
    /// parent. An identity that is not configured is reported as
    /// `ConfigIncomplete`.
    pub fn commit(&self, message: &str) -> (r: Result<String, GitError>)
        ensures
            !self.holds_repo() ==> (r matches Err(e) && e@ == GitErrorView::NotARepository),
            self.holds_repo() ==> (r matches Err(e) ==> e@ is Backend || e@ is ConfigIncomplete),
    {
        let repo = match &self.repo {
            Some(repo) => repo,
            None => { return Err(GitError::NotARepository); },
        };
        let mut index = match repo_index(repo) {
            Ok(index) => index,
            Err(e) => { return Err(backend_error(&e)); },
        };
        if let Err(e) = index_write(&mut index) {
            return Err(backend_error(&e));
        }
        let tree_id = match index_write_tree(&mut index) {
            Ok(id) => id,
            Err(e) => { return Err(backend_error(&e)); },
        };
        let tree = match find_tree(repo, tree_id) {
            Ok(tree) => tree,
            Err(e) => { return Err(backend_error(&e)); },
        };
        let signature = match default_signature(repo) {
            Ok(signature) => signature,
            Err(e) => { return Err(identity_failure(&failure_of(&e))); },
        };
        let state = match resolve_head(repo) {
            Ok(state) => state,
            Err(failure) => { return Err(GitError::from_failure(&failure)); },
        };
        let plan = commit_plan(&state)?;
        let target = commit_target(&plan);
        let parent = match target.parent {
            Some(parent) => match find_commit(repo, parent) {
                Ok(parent) => Some(parent),
                Err(e) => { return Err(backend_error(&e)); },
            },
            None => None,
        };
        let id = match create_commit(
            repo,
            &target,
            &signature,
            message,
            &tree,
            parent.as_ref(),
        ) {
            Ok(id) => id,
            Err(e) => { return Err(backend_error(&e)); },
        };
        if target.move_head {
            if let Err(e) = set_head(repo, target.update_ref.as_str()) {
                return Err(backend_error(&e));
            }
        }
        Ok(oid_hex(id))
    }

    /// The most recent commits from HEAD, newest first, at most `limit`. A
    /// repository without commits has none. Each record is marked as on the
    /// upstream when its commit is among the ancestors collected from the
    /// tip that the current branch tracks.
    pub fn get_recent_commits(&self, limit: usize) -> (r: Result<Vec<GitCommit>, GitError>)
        ensures
            !self.holds_repo() ==> (r matches Err(e) && e@ == GitErrorView::NotARepository),
            self.holds_repo() ==> (r matches Err(e) ==> e@ is Backend),
            r matches Ok(commits) ==> commits@.len() <= limit && forall|i: int|
                0 <= i < commits@.len() ==> (#[trigger] commits@[i]).is_on_head
                    && commits@[i].hash@.len() <= SHORT_HASH_LEN,
            r matches Ok(commits) ==> is_some_history(commits@),
    {
        let repo = match &self.repo {
            Some(repo) => repo,
            None => { return Err(GitError::NotARepository); },
        };
        let state = match resolve_head(repo) {
            Ok(state) => state,
            Err(failure) => { return Err(GitError::from_failure(&failure)); },
        };
        let branch = match history_plan(state) {
            HistoryPlan::Nothing => {
                let none: Vec<GitCommit> = Vec::new();
                assert(is_marked_history(
                    none@,
                    Seq::<CommitInfo>::empty(),
                    Seq::<Seq<char>>::empty(),
                ));
                return Ok(none);
            },
            HistoryPlan::Walk { branch } => branch,
        };
        let upstream = match &branch {
            Some(branch) => collect_upstream(repo, branch.as_str())?,
            None => Vec::new(),
        };
        let walk = collect_walk(repo, limit)?;
        let records = build_history(&walk, &upstream);
        assert(is_marked_history(records@, walk@, texts(upstream@)));
        Ok(records)
    }

    /// Pushes the local branch to the branch of the same name on the remote.
    /// Before the remote is contacted, HEAD must point at a commit, the
    /// remote must be configured and the local branch must exist. The
    /// credentials are those given, then a stored secret, then the agent,
    /// then the platform default. A rejected push is classified by the
    /// transport's message. After a push that succeeded the branch is made
    /// to track the remote branch if it tracks none; a failure to do so is
    /// not reported.
    pub fn push(
        &self,
        remote_name: &str,
        branch_name: &str,
        username: Option<&str>,
        password: Option<&str>,
    ) -> (r: Result<(), GitError>)
        ensures
            !self.holds_repo() ==> (r matches Err(e) && e@ == GitErrorView::NotARepository),
            self.holds_repo() ==> (r matches Err(e) ==> !(e@ is NotARepository)),
            r matches Err(e) ==> is_push_failure(e@, remote_name@, branch_name@),
    {
        let repo = match &self.repo {
            Some(repo) => repo,
            None => { return Err(GitError::NotARepository); },
        };
        let state = resolve_head(repo);
        let remote = find_remote(repo, remote_name);
        let checks = PushChecks {
            has_commits: !lacks_commits(&state),
            remote_exists: remote.is_ok(),
            branch_exists: find_local_branch(repo, branch_name).is_ok(),
        };
        check_push_preconditions(checks, remote_name, branch_name)?;
        let mut remote = match remote {
            Ok(remote) => remote,
            Err(_) => unreached(),
        };
        let stored = match load_stored_credentials(repo, remote_name) {
            Ok(pair) => Some(pair),
            Err(_) => None,
        };
        let resolved = resolve_credentials(username, password, stored);
        let refspec = push_refspec(branch_name);
        let rejection: Option<String> = match remote_push(
            &mut remote,
            refspec.as_str(),
            resolved.username,
            resolved.password,
        ) {
            Ok(()) => None,
            Err(e) => Some(failure_of(&e).message),
        };
        let mut upstream_linked = false;
        if rejection.is_none() {
            if let Ok(mut branch) = find_local_branch(repo, branch_name) {
                let has_upstream = branch_upstream(&branch).is_ok();
                upstream_linked = match upstream_to_link(has_upstream, remote_name, branch_name) {
                    Some(upstream) => branch_set_upstream(&mut branch, upstream.as_str()).is_ok(),
                    None => true,
                };
            }
        }
        let rejection: Option<&str> = match &rejection {
            Some(message) => Some(message.as_str()),
            None => None,
        };
        push_result(rejection, branch_name, upstream_linked)
    }

    /// Fetches the configured refspecs of the remote. Nothing is merged,
    /// checked out or fast-forwarded. The transport is answered with a key
    /// of the agent.
    pub fn pull(&self, remote_name: &str, _branch_name: &str) -> (r: Result<(), GitError>)
        ensures
            !self.holds_repo() ==> (r matches Err(e) && e@ == GitErrorView::NotARepository),
            self.holds_repo() ==> (r matches Err(e) ==> e@ is Backend),
    {
        let repo = match &self.repo {
            Some(repo) => repo,
            None => { return Err(GitError::NotARepository); },
        };
        let mut remote = match find_remote(repo, remote_name) {
            Ok(remote) => remote,
            Err(e) => { return Err(backend_error(&e)); },
        };
        let listed = match remote_fetch_refspecs(&remote) {
            Ok(listed) => listed,
            Err(e) => { return Err(backend_error(&e)); },
        };
        let refspecs = present_refspecs(&listed);
        if let Err(e) = remote_fetch(&mut remote, &refspecs) {
            return Err(backend_error(&e));
        }
        Ok(())
    }
}

} // verus!

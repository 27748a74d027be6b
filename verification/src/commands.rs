//! The command surface: each request of the user interface as one call,
//! with its defaults filled in and its failure turned into the text that is
//! shown.

use vstd::prelude::*;
use crate::error::{message_of, GitError, GitErrorView};
use crate::history::SHORT_HASH_LEN;
use crate::init::{
    is_created_report, is_existing_report, is_failed_report, IgnoreFile, InitOutcome,
};
use crate::manager::{is_push_failure, GitManager};
use crate::model::{GitCommit, GitConfig, GitStatus};

verus! {

/// The remote that a request without one means.
pub const DEFAULT_REMOTE: &'static str = "origin";

/// The branch that a request without one means.
pub const DEFAULT_BRANCH: &'static str = "main";

/// The text of a value that may be left out, with its default.
pub open spec fn or_default_of(value: Option<String>, default: Seq<char>) -> Seq<char> {
    match value {
        Some(v) => v@,
        None => default,
    }
}

/// The value of a request field that may be left out.
pub fn or_default(value: Option<String>, default: &str) -> (r: String)
    ensures
        r@ == or_default_of(value, default@),
{
    match value {
        Some(v) => v,
        None => String::from_str(default),
    }
}

/// Turns the failure of an operation into the text shown for it: what was
/// attempted, then the failure's own message. A success passes through.
pub fn report<T>(outcome: Result<T, GitError>, attempted: &str) -> (r: Result<T, String>)
    ensures
        match outcome {
            Ok(value) => r == Ok::<T, String>(value),
            Err(e) => r matches Err(text) && text@ == attempted@ + message_of(e@),
        },
{
    match outcome {
        Ok(value) => Ok(value),
        Err(e) => {
            let mut text = String::from_str(attempted);
            let message = e.message();
            text.append(message.as_str());
            Err(text)
        },
    }
}

/// The status of the repository at `project_path`.
pub fn get_git_status(project_path: &str) -> (r: Result<GitStatus, String>)
    ensures
        r matches Ok(s) ==> s.wf(),
        r matches Err(text) ==> "Failed to get git status: "@.is_prefix_of(text@),
{
    let manager = GitManager::new(project_path);
    report(manager.get_status(project_path), "Failed to get git status: ")
}

/// Stages one file of the repository at `project_path`.
pub fn stage_file(project_path: &str, file_path: &str) -> (r: Result<(), String>)
    ensures
        r matches Err(text) ==> "Failed to stage file: "@.is_prefix_of(text@),
{
    let manager = GitManager::new(project_path);
    report(manager.stage_file(file_path), "Failed to stage file: ")
}

/// Unstages one file of the repository at `project_path`.
pub fn unstage_file(project_path: &str, file_path: &str) -> (r: Result<(), String>)
    ensures
        r matches Err(text) ==> "Failed to unstage file: "@.is_prefix_of(text@),
{
    let manager = GitManager::new(project_path);
    report(manager.unstage_file(file_path), "Failed to unstage file: ")
}

/// Commits the index of the repository at `project_path` and returns the
/// identifier of the commit.
pub fn commit_changes(project_path: &str, message: &str) -> (r: Result<String, String>)
    ensures
        r matches Err(text) ==> "Failed to commit: "@.is_prefix_of(text@),
{
    let manager = GitManager::new(project_path);
    report(manager.commit(message), "Failed to commit: ")
}

/// The most recent commits of the repository at `project_path`, at most
/// `limit`.
pub fn get_recent_commits(project_path: &str, limit: usize) -> (r: Result<Vec<GitCommit>, String>)
    ensures
        r matches Ok(commits) ==> commits@.len() <= limit && forall|i: int|
            0 <= i < commits@.len() ==> (#[trigger] commits@[i]).is_on_head
                && commits@[i].hash@.len() <= SHORT_HASH_LEN,
        r matches Err(text) ==> "Failed to get commits: "@.is_prefix_of(text@),
{
    let manager = GitManager::new(project_path);
    report(manager.get_recent_commits(limit), "Failed to get commits: ")
}

/// Makes `project_path` a repository; on success, the ignore file that is
/// still to be written, if the repository is new.
pub fn init_git_repo(project_path: &str) -> (r: Result<Option<IgnoreFile>, String>)
    ensures
        r matches Ok(Some(file)) ==> file.is_default(),
        r matches Err(text) ==> ("Failed to initialize git repository: "@
            + "Failed to initialize Git repository: "@).is_prefix_of(text@),
{
    report(crate::repository::init_git_repo(project_path), "Failed to initialize git repository: ")
}

/// Makes `project_path` a repository or verifies the one that is there.
pub fn init_git_repo_enhanced(project_path: &str) -> (r: InitOutcome)
    ensures
        match r.ignore_file {
            Some(file) => file.is_default() && is_created_report(r.result),
            None => is_existing_report(r.result) || is_failed_report(r.result),
        },
        r.result.git_config matches Some(c) ==> c.wf() && (r.result.success ==> r.result.needs_config
            == !c.is_configured),
{
    crate::repository::init_git_repo_enhanced(project_path)
}

/// The identity configured for the repository at `project_path`.
pub fn get_git_config(project_path: &str) -> (r: Result<GitConfig, String>)
    ensures
        r matches Ok(c) ==> c.wf(),
        r matches Err(text) ==> "Failed to get git config: "@.is_prefix_of(text@),
{
    report(crate::repository::get_git_config(project_path), "Failed to get git config: ")
}

/// Sets the identity of the repository at `project_path`.
pub fn set_git_config(project_path: &str, name: &str, email: &str) -> (r: Result<(), String>)
    ensures
        r matches Err(text) ==> "Failed to set git config: "@.is_prefix_of(text@),
{
    report(crate::repository::set_git_config(project_path, name, email), "Failed to set git config: ")
}

/// Whether `project_path` is the root of a repository.
pub fn is_git_repository(project_path: &str) -> (r: bool) {
    crate::repository::is_git_repository(project_path)
}

/// Pushes a branch of the repository at `project_path`; the remote defaults
/// to `origin` and the branch to `main`.
pub fn git_push(
    project_path: &str,
    remote_name: Option<String>,
    branch_name: Option<String>,
    username: Option<String>,
    password: Option<String>,
) -> (r: Result<(), String>)
    ensures
        r matches Err(text) ==> exists|e: GitErrorView| #[trigger]
            is_push_failure(
                e,
                or_default_of(remote_name, DEFAULT_REMOTE@),
                or_default_of(branch_name, DEFAULT_BRANCH@),
            ) && text@ == "Failed to push: "@ + message_of(e),
{
    let remote = or_default(remote_name, DEFAULT_REMOTE);
    let branch = or_default(branch_name, DEFAULT_BRANCH);
    let manager = GitManager::new(project_path);
    let username: Option<&str> = match &username {
        Some(u) => Some(u.as_str()),
        None => None,
    };
    let password: Option<&str> = match &password {
        Some(p) => Some(p.as_str()),
        None => None,
    };
    let outcome = manager.push(remote.as_str(), branch.as_str(), username, password);
    proof {
        if outcome is Err {
            assert(is_push_failure(outcome->Err_0@, remote@, branch@));
        }
    }
    report(outcome, "Failed to push: ")
}

/// Fetches from a remote of the repository at `project_path`; the remote
/// defaults to `origin` and the branch to `main`.
pub fn git_pull(project_path: &str, remote_name: Option<String>, branch_name: Option<String>) -> (r:
    Result<(), String>)
    ensures
        r matches Err(text) ==> "Failed to pull: "@.is_prefix_of(text@),
{
    let remote = or_default(remote_name, DEFAULT_REMOTE);
    let branch = or_default(branch_name, DEFAULT_BRANCH);
    let manager = GitManager::new(project_path);
    report(manager.pull(remote.as_str(), branch.as_str()), "Failed to pull: ")
}

/// Stores a secret for a remote of the repository at `project_path`; the
/// remote defaults to `origin`.
pub fn save_git_credentials_cmd(
    project_path: &str,
    remote_name: Option<String>,
    username: &str,
    password: &str,
) -> (r: Result<(), String>)
    ensures
        r matches Err(text) ==> "Failed to save credentials: "@.is_prefix_of(text@),
{
    let remote = or_default(remote_name, DEFAULT_REMOTE);
    report(
        crate::repository::save_git_credentials(project_path, remote.as_str(), username, password),
        "Failed to save credentials: ",
    )
}

/// Removes the stored secret of a remote of the repository at
/// `project_path`; the remote defaults to `origin`.
pub fn clear_git_credentials_cmd(project_path: &str, remote_name: Option<String>, username: &str) -> (r:
    Result<(), String>)
    ensures
        r matches Err(text) ==> "Failed to clear credentials: "@.is_prefix_of(text@),
{
    let remote = or_default(remote_name, DEFAULT_REMOTE);
    report(
        crate::repository::clear_git_credentials(project_path, remote.as_str(), username),
        "Failed to clear credentials: ",
    )
}

} // verus!

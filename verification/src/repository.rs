//! Configuration, remotes and stored secrets of a repository, as operations
//! of the handle, and every operation that takes the path of a repository:
//! each of those opens a handle of its own and lets it go when it returns.

use vstd::prelude::*;
use crate::backend::{
    add_remote, backend_error, config_local_level, config_set, config_string, default_config,
    failure_display, find_remote, init_repository, repo_config, set_remote_url,
};
use crate::credentials::{clear_result, service_key, url_of_remote, StoreFailure};
use crate::error::{GitError, GitErrorView};
use crate::init::{
    created_result, existing_result, failed_result, is_created_report, is_existing_report,
    is_failed_report, plain_outcome, IgnoreFile, InitOutcome,
};
use crate::manager::GitManager;
use crate::model::GitConfig;
use crate::store::{
    entry_delete, entry_for, entry_store, store_failure_is_no_entry, store_failure_text,
};

verus! {

/// Whether `repo_path` is the root of a repository.
pub fn is_git_repository(repo_path: &str) -> (r: bool) {
    GitManager::new(repo_path).is_git_repo()
}

/// Reads the identity that a configuration gives: each field is absent when
/// it cannot be read.
fn identity_in(config: &git2::Config) -> (r: GitConfig)
    ensures
        r.wf(),
{
    let user_name = match config_string(config, "user.name") {
        Ok(name) => Some(name),
        Err(_) => None,
    };
    let user_email = match config_string(config, "user.email") {
        Ok(email) => Some(email),
        Err(_) => None,
    };
    GitConfig::from_identity(user_name, user_email)
}

/// Reads the identity of an open repository from its own configuration
/// file: what the global and system files hold is not read.
fn read_identity(repo: &git2::Repository) -> (r: Result<GitConfig, GitError>)
    ensures
        r matches Ok(c) ==> c.wf(),
        r matches Err(e) ==> e@ is Backend,
{
    let merged = match repo_config(repo) {
        Ok(merged) => merged,
        Err(e) => { return Err(backend_error(&e)); },
    };
    match config_local_level(&merged) {
        Ok(own) => Ok(identity_in(&own)),
        Err(e) => Err(backend_error(&e)),
    }
}

impl GitManager {
    /// The identity configured for the repository: the user name and the
    /// email, each absent when it cannot be read, and whether both are
    /// there.
    pub fn get_config(&self) -> (r: Result<GitConfig, GitError>)
        ensures
            !self.holds_repo() ==> (r matches Err(e) && e@ == GitErrorView::NotARepository),
            self.holds_repo() ==> (r matches Err(e) ==> e@ is Backend),
            r matches Ok(c) ==> c.wf(),
    {
        match self.repository() {
            Some(repo) => read_identity(repo),
            None => Err(GitError::NotARepository),
        }
    }

    /// Sets the user name and the email of the repository.
    pub fn set_config(&self, name: &str, email: &str) -> (r: Result<(), GitError>)
        ensures
            !self.holds_repo() ==> (r matches Err(e) && e@ == GitErrorView::NotARepository),
            self.holds_repo() ==> (r matches Err(e) ==> e@ is Backend),
    {
        let repo = match self.repository() {
            Some(repo) => repo,
            None => { return Err(GitError::NotARepository); },
        };
        let mut config = match repo_config(repo) {
            Ok(config) => config,
            Err(e) => { return Err(backend_error(&e)); },
        };
        if let Err(e) = config_set(&mut config, "user.name", name) {
            return Err(backend_error(&e));
        }
        if let Err(e) = config_set(&mut config, "user.email", email) {
            return Err(backend_error(&e));
        }
        Ok(())
    }

    /// Points the remote `remote_name` at `url`: an existing remote gets the
    /// new URL, a missing one is added.
    pub fn set_remote(&self, remote_name: &str, url: &str) -> (r: Result<(), GitError>)
        ensures
            !self.holds_repo() ==> (r matches Err(e) && e@ == GitErrorView::NotARepository),
            self.holds_repo() ==> (r matches Err(e) ==> e@ is Backend),
    {
        let repo = match self.repository() {
            Some(repo) => repo,
            None => { return Err(GitError::NotARepository); },
        };
        let outcome = if find_remote(repo, remote_name).is_ok() {
            set_remote_url(repo, remote_name, url)
        } else {
            add_remote(repo, remote_name, url)
        };
        match outcome {
            Ok(()) => Ok(()),
            Err(e) => Err(backend_error(&e)),
        }
    }

    /// Stores `password` for `username` under the URL of the remote.
    pub fn save_credentials(&self, remote_name: &str, username: &str, password: &str) -> (r:
        Result<(), GitError>)
        ensures
            !self.holds_repo() ==> (r matches Err(e) && e@ == GitErrorView::NotARepository),
            self.holds_repo() ==> (r matches Err(e) ==> e@ is Backend),
    {
        let repo = match self.repository() {
            Some(repo) => repo,
            None => { return Err(GitError::NotARepository); },
        };
        let url = url_of_remote(repo, remote_name)?;
        let service = service_key(url.as_str());
        let entry = match entry_for(service.as_str(), username) {
            Ok(entry) => entry,
            Err(e) => { return Err(GitError::Backend(store_failure_text(&e))); },
        };
        match entry_store(&entry, password) {
            Ok(()) => Ok(()),
            Err(e) => Err(GitError::Backend(store_failure_text(&e))),
        }
    }

    /// Removes the secret stored for `username` under the URL of the remote.
    /// A secret that is not there is no failure; any other failure of the
    /// store is returned, so that success means that the secret is gone.
    pub fn clear_credentials(&self, remote_name: &str, username: &str) -> (r: Result<
        (),
        GitError,
    >)
        ensures
            !self.holds_repo() ==> (r matches Err(e) && e@ == GitErrorView::NotARepository),
            self.holds_repo() ==> (r matches Err(e) ==> e@ is Backend),
    {
        let repo = match self.repository() {
            Some(repo) => repo,
            None => { return Err(GitError::NotARepository); },
        };
        let url = url_of_remote(repo, remote_name)?;
        let service = service_key(url.as_str());
        let entry = match entry_for(service.as_str(), username) {
            Ok(entry) => entry,
            Err(e) => { return Err(GitError::Backend(store_failure_text(&e))); },
        };
        let deleted = match entry_delete(&entry) {
            Ok(()) => Ok(()),
            Err(e) => Err(
                StoreFailure {
                    no_entry: store_failure_is_no_entry(&e),
                    text: store_failure_text(&e),
                },
            ),
        };
        clear_result(deleted)
    }
}

/// The identity configured for the repository at `repo_path`: the user name
/// and the email, each absent when it cannot be read, and whether both are
/// there.
pub fn get_git_config(repo_path: &str) -> (r: Result<GitConfig, GitError>)
    ensures
        r matches Ok(c) ==> c.wf(),
        r matches Err(e) ==> e@ is NotARepository || e@ is Backend,
{
    GitManager::new(repo_path).get_config()
}

/// Sets the user name and the email of the repository at `repo_path`.
pub fn set_git_config(repo_path: &str, name: &str, email: &str) -> (r: Result<(), GitError>)
    ensures
        r matches Err(e) ==> e@ is NotARepository || e@ is Backend,
{
    GitManager::new(repo_path).set_config(name, email)
}

/// The identity that the global configuration holds. A global configuration
/// that cannot be opened holds none.
fn global_identity() -> (r: GitConfig)
    ensures
        r.wf(),
{
    match default_config() {
        Ok(config) => identity_in(&config),
        Err(_) => GitConfig::unset(),
    }
}

/// Makes `repo_path` a repository, or verifies the one that is there; a
/// second call on the same path finds the repository and changes nothing.
/// For a repository that exists the identity is read and reported. A new
/// repository is reported with the ignore file that is to be written at its
/// root, and needs configuration unless the global configuration holds an
/// identity. A missing identity never fails the call; only a repository that
/// cannot be created does.
pub fn init_git_repo_enhanced(repo_path: &str) -> (r: InitOutcome)
    ensures
        match r.ignore_file {
            Some(file) => file.is_default() && is_created_report(r.result),
            None => is_existing_report(r.result) || is_failed_report(r.result),
        },
        r.result.git_config matches Some(c) ==> c.wf() && (r.result.success ==> r.result.needs_config
            == !c.is_configured),
{
    let manager = GitManager::new(repo_path);
    if let Some(repo) = manager.repository() {
        return InitOutcome { result: existing_result(read_identity(repo)), ignore_file: None };
    }
    match init_repository(repo_path) {
        Ok(_) => {
            let global = global_identity();
            InitOutcome {
                result: created_result(global.user_name, global.user_email),
                ignore_file: Some(IgnoreFile::scaffold()),
            }
        },
        Err(e) => {
            let reason = failure_display(&e);
            InitOutcome { result: failed_result(reason.as_str()), ignore_file: None }
        },
    }
}

/// Makes `repo_path` a repository as `init_git_repo_enhanced` does and keeps
/// of the report only whether it succeeded: the ignore file still to be
/// written, or the report's message as a failure.
pub fn init_git_repo(repo_path: &str) -> (r: Result<Option<IgnoreFile>, GitError>)
    ensures
        r matches Ok(Some(file)) ==> file.is_default(),
        r matches Err(e) ==> (e@ matches GitErrorView::Backend(text)
            && "Failed to initialize Git repository: "@.is_prefix_of(text)),
{
    plain_outcome(init_git_repo_enhanced(repo_path))
}

/// Points the remote `remote_name` of the repository at `repo_path` at
/// `url`: an existing remote gets the new URL, a missing one is added.
pub fn set_remote(repo_path: &str, remote_name: &str, url: &str) -> (r: Result<(), GitError>)
    ensures
        r matches Err(e) ==> e@ is NotARepository || e@ is Backend,
{
    GitManager::new(repo_path).set_remote(remote_name, url)
}

/// Stores `password` for `username` under the URL of the remote of the
/// repository at `repo_path`.
pub fn save_git_credentials(
    repo_path: &str,
    remote_name: &str,
    username: &str,
    password: &str,
) -> (r: Result<(), GitError>)
    ensures
        r matches Err(e) ==> e@ is NotARepository || e@ is Backend,
{
    GitManager::new(repo_path).save_credentials(remote_name, username, password)
}

/// Removes the secret stored for `username` under the URL of the remote of
/// the repository at `repo_path`. A secret that is not there is no failure;
/// any other failure of the store is returned.
pub fn clear_git_credentials(repo_path: &str, remote_name: &str, username: &str) -> (r: Result<
    (),
    GitError,
>)
    ensures
        r matches Err(e) ==> e@ is NotARepository || e@ is Backend,
{
    GitManager::new(repo_path).clear_credentials(remote_name, username)
}

} // verus!

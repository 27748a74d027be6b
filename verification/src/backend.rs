//! The boundary to libgit2: the outside types that the core carries, and one
//! thin function for each libgit2 call that it makes. What a call returns
//! depends on the repository on disk, so these functions promise nothing of
//! their results unless their comment says otherwise.

use vstd::prelude::*;
use crate::commit::CommitTarget;
use crate::credentials::{offer_agent_credential, offer_credential};
use crate::error::{Failure, FailureKind, GitError};
use crate::status::{is_snapshot_query, ChangeFlags, StatusQuery};

verus! {

/// An open repository.
#[verifier::external_type_specification]
#[verifier::external_body]
pub struct ExRepository(git2::Repository);

/// A failure reported by libgit2.
#[verifier::external_type_specification]
#[verifier::external_body]
pub struct ExError(git2::Error);

/// An object identifier.
#[verifier::external_type_specification]
#[verifier::external_body]
pub struct ExOid(git2::Oid);

/// The staging index of a repository.
#[verifier::external_type_specification]
#[verifier::external_body]
pub struct ExIndex(git2::Index);

/// A reference: a branch, a tag, or HEAD as resolved.
#[verifier::external_type_specification]
#[verifier::external_body]
pub struct ExReference<'r>(git2::Reference<'r>);

/// A tree object.
#[verifier::external_type_specification]
#[verifier::external_body]
pub struct ExTree<'r>(git2::Tree<'r>);

/// An author or committer identity with its time.
#[verifier::external_type_specification]
#[verifier::external_body]
pub struct ExSignature<'a>(git2::Signature<'a>);

/// A commit object.
#[verifier::external_type_specification]
#[verifier::external_body]
pub struct ExCommit<'r>(git2::Commit<'r>);

/// A configured remote.
#[verifier::external_type_specification]
#[verifier::external_body]
pub struct ExRemote<'r>(git2::Remote<'r>);

/// A walk over the commit graph.
#[verifier::external_type_specification]
#[verifier::external_body]
pub struct ExRevwalk<'r>(git2::Revwalk<'r>);

/// A branch reference.
#[verifier::external_type_specification]
#[verifier::external_body]
pub struct ExBranch<'r>(git2::Branch<'r>);

/// A configuration store.
#[verifier::external_type_specification]
#[verifier::external_body]
pub struct ExConfig(git2::Config);

/// The status flags of one path.
#[verifier::external_type_specification]
#[verifier::external_body]
pub struct ExStatus(git2::Status);

/// A credential offered to a transport.
#[verifier::external_type_specification]
#[verifier::external_body]
pub struct ExCred(git2::Cred);

/// Reads `git2::Error::code` and keeps the two codes that the core acts on.
#[verifier::external_body]
pub(crate) fn failure_kind(e: &git2::Error) -> (r: FailureKind) {
    match e.code() {
        git2::ErrorCode::UnbornBranch => FailureKind::UnbornBranch,
        git2::ErrorCode::NotFound => FailureKind::NotFound,
        _ => FailureKind::Other,
    }
}

/// Copies `git2::Error::message`, the bare text that libgit2 gave.
#[verifier::external_body]
pub(crate) fn failure_message(e: &git2::Error) -> (r: String) {
    e.message().to_string()
}

/// The error as git2's `Display` prints it: the message, then class and code.
#[verifier::external_body]
pub(crate) fn failure_display(e: &git2::Error) -> (r: String) {
    e.to_string()
}

/// The failure in plain values: its kind, its message and its display.
pub(crate) fn failure_of(e: &git2::Error) -> (r: Failure) {
    Failure { kind: failure_kind(e), message: failure_message(e), display: failure_display(e) }
}

/// The failure of the core that stands for a failure of the backend.
pub(crate) fn backend_error(e: &git2::Error) -> (r: GitError)
    ensures
        r@ is Backend,
{
    GitError::Backend(failure_display(e))
}

/// Calls `git2::Repository::open` on `path`.
#[verifier::external_body]
pub(crate) fn open_repository(path: &str) -> (r: Result<git2::Repository, git2::Error>) {
    git2::Repository::open(path)
}

/// Calls `git2::Repository::init` on `path`, which creates the directories
/// that are missing.
#[verifier::external_body]
pub(crate) fn init_repository(path: &str) -> (r: Result<git2::Repository, git2::Error>) {
    git2::Repository::init(path)
}

/// Calls `git2::Repository::head`, which resolves HEAD to a reference.
#[verifier::external_body]
pub(crate) fn repo_head<'r>(repo: &'r git2::Repository) -> (r: Result<
    git2::Reference<'r>,
    git2::Error,
>) {
    repo.head()
}

/// Copies `git2::Reference::shorthand`, which is absent when the name is not
/// valid UTF-8.
#[verifier::external_body]
pub(crate) fn reference_shorthand(reference: &git2::Reference<'_>) -> (r: Option<String>) {
    reference.shorthand().map(str::to_string)
}

/// Calls `git2::Reference::target`, which is absent for a symbolic
/// reference.
#[verifier::external_body]
pub(crate) fn reference_target(reference: &git2::Reference<'_>) -> (r: Option<git2::Oid>) {
    reference.target()
}

/// Calls `git2::Repository::statuses` with the three options of the query
/// and copies the path and the status flags of each entry, in the order of
/// the list. A path that is not valid UTF-8 is absent. The core lists for a
/// snapshot only, so the query must be the one of a snapshot.
#[verifier::external_body]
pub(crate) fn list_changes(repo: &git2::Repository, query: StatusQuery) -> (r: Result<
    Vec<(Option<String>, git2::Status)>,
    git2::Error,
>)
    requires
        is_snapshot_query(query),
{
    let mut options = git2::StatusOptions::new();
    options.include_untracked(query.include_untracked).include_ignored(query.include_ignored);
    options.recurse_untracked_dirs(query.recurse_untracked_dirs);
    let list = repo.statuses(Some(&mut options))?;
    Ok(list.iter().map(|e| (e.path().map(str::to_string), e.status())).collect())
}

/// Calls `git2::Repository::index`.
#[verifier::external_body]
pub(crate) fn repo_index(repo: &git2::Repository) -> (r: Result<git2::Index, git2::Error>) {
    repo.index()
}

/// Calls `git2::Index::add_path` with `path`, relative to the working tree.
#[verifier::external_body]
pub(crate) fn index_add(index: &mut git2::Index, path: &str) -> (r: Result<(), git2::Error>) {
    index.add_path(std::path::Path::new(path))
}

/// Calls `git2::Index::remove_path` with `path`, relative to the working
/// tree.
#[verifier::external_body]
pub(crate) fn index_remove(index: &mut git2::Index, path: &str) -> (r: Result<(), git2::Error>) {
    index.remove_path(std::path::Path::new(path))
}

/// Calls `git2::Index::write`, which replaces the index on disk under its
/// lock file.
#[verifier::external_body]
pub(crate) fn index_write(index: &mut git2::Index) -> (r: Result<(), git2::Error>) {
    index.write()
}

/// Calls `git2::Index::write_tree`.
#[verifier::external_body]
pub(crate) fn index_write_tree(index: &mut git2::Index) -> (r: Result<git2::Oid, git2::Error>) {
    index.write_tree()
}

/// Calls `git2::Repository::find_tree`.
#[verifier::external_body]
pub(crate) fn find_tree<'r>(repo: &'r git2::Repository, id: git2::Oid) -> (r: Result<
    git2::Tree<'r>,
    git2::Error,
>) {
    repo.find_tree(id)
}

/// Calls `git2::Repository::signature`, which reads the configured identity
/// and the clock.
#[verifier::external_body]
pub(crate) fn default_signature(repo: &git2::Repository) -> (r: Result<
    git2::Signature<'static>,
    git2::Error,
>) {
    repo.signature()
}

/// Calls `git2::Repository::find_commit`.
#[verifier::external_body]
pub(crate) fn find_commit<'r>(repo: &'r git2::Repository, id: git2::Oid) -> (r: Result<
    git2::Commit<'r>,
    git2::Error,
>) {
    repo.find_commit(id)
}

/// Calls `git2::Repository::commit` with `signature` as author and as
/// committer, the reference of the target as the reference to move, and
/// `parent` as the only parent, or none. The commit is created for a target,
/// so a parent is handed over exactly when the target names one.
#[verifier::external_body]
pub(crate) fn create_commit(
    repo: &git2::Repository,
    target: &CommitTarget,
    signature: &git2::Signature<'_>,
    message: &str,
    tree: &git2::Tree<'_>,
    parent: Option<&git2::Commit<'_>>,
) -> (r: Result<git2::Oid, git2::Error>)
    requires
        parent is Some == target.parent is Some,
{
    repo.commit(Some(target.update_ref.as_str()), signature, signature, message, tree, parent.as_slice())
}

/// Calls `git2::Repository::set_head`.
#[verifier::external_body]
pub(crate) fn set_head(repo: &git2::Repository, refname: &str) -> (r: Result<(), git2::Error>) {
    repo.set_head(refname)
}

/// The identifier in hexadecimal, as `git2::Oid` prints itself.
#[verifier::external_body]
pub(crate) fn oid_hex(id: git2::Oid) -> (r: String) {
    id.to_string()
}

/// Calls `git2::Repository::revwalk`.
#[verifier::external_body]
pub(crate) fn new_revwalk<'r>(repo: &'r git2::Repository) -> (r: Result<
    git2::Revwalk<'r>,
    git2::Error,
>) {
    repo.revwalk()
}

/// Calls `git2::Revwalk::push`.
#[verifier::external_body]
pub(crate) fn revwalk_push(walk: &mut git2::Revwalk<'_>, id: git2::Oid) -> (r: Result<
    (),
    git2::Error,
>) {
    walk.push(id)
}

/// Calls `git2::Revwalk::push_head`.
#[verifier::external_body]
pub(crate) fn revwalk_push_head(walk: &mut git2::Revwalk<'_>) -> (r: Result<(), git2::Error>) {
    walk.push_head()
}

/// Takes the next commit of the walk through the `Iterator` of
/// `git2::Revwalk`.
#[verifier::external_body]
pub(crate) fn revwalk_next(walk: &mut git2::Revwalk<'_>) -> (r: Option<
    Result<git2::Oid, git2::Error>,
>) {
    walk.next()
}

/// Copies `git2::Commit::message`, which is absent when the message is not
/// valid UTF-8.
#[verifier::external_body]
pub(crate) fn commit_message(commit: &git2::Commit<'_>) -> (r: Option<String>) {
    commit.message().map(str::to_string)
}

/// Copies the name of `git2::Commit::author`, which is absent when it is not
/// valid UTF-8.
#[verifier::external_body]
pub(crate) fn commit_author_name(commit: &git2::Commit<'_>) -> (r: Option<String>) {
    commit.author().name().map(str::to_string)
}

/// The seconds since the epoch of `git2::Commit::time`.
#[verifier::external_body]
pub(crate) fn commit_seconds(commit: &git2::Commit<'_>) -> (r: i64) {
    commit.time().seconds()
}

/// Calls `git2::Repository::find_remote`.
#[verifier::external_body]
pub(crate) fn find_remote<'r>(repo: &'r git2::Repository, name: &str) -> (r: Result<
    git2::Remote<'r>,
    git2::Error,
>) {
    repo.find_remote(name)
}

/// Calls `git2::Remote::push` with the one refspec. Each time the transport
/// asks for a credential, the answer is that of `offer_credential` for the
/// kinds that the transport accepts, the user in the URL and the two fields
/// given here.
#[verifier::external_body]
pub(crate) fn remote_push(
    remote: &mut git2::Remote<'_>,
    refspec: &str,
    username: Option<String>,
    password: Option<String>,
) -> (r: Result<(), git2::Error>) {
    let mut callbacks = git2::RemoteCallbacks::new();
    callbacks.credentials(move |_url, url_user, kinds| {
        offer_credential(kinds.is_user_pass_plaintext(), kinds.is_ssh_key(), url_user, username.as_deref(), password.as_deref()).0
    });
    let mut options = git2::PushOptions::new();
    options.remote_callbacks(callbacks);
    remote.push(&[refspec], Some(&mut options))
}

/// Copies `git2::Remote::fetch_refspecs`; a refspec that is not valid UTF-8
/// is absent.
#[verifier::external_body]
pub(crate) fn remote_fetch_refspecs(remote: &git2::Remote<'_>) -> (r: Result<
    Vec<Option<String>>,
    git2::Error,
>) {
    remote.fetch_refspecs().map(|specs| specs.iter().map(|s| s.map(str::to_string)).collect())
}

/// Calls `git2::Remote::fetch` with the refspecs. Each time the transport
/// asks for a credential, the answer is that of `offer_agent_credential` for
/// the user in the URL.
#[verifier::external_body]
pub(crate) fn remote_fetch(remote: &mut git2::Remote<'_>, refspecs: &Vec<String>) -> (r: Result<
    (),
    git2::Error,
>) {
    let mut callbacks = git2::RemoteCallbacks::new();
    callbacks.credentials(|_url, url_user, _kinds| offer_agent_credential(url_user));
    let mut options = git2::FetchOptions::new();
    options.remote_callbacks(callbacks);
    remote.fetch(refspecs, Some(&mut options), None)
}

/// Calls `git2::Repository::find_branch` for a local branch.
#[verifier::external_body]
pub(crate) fn find_local_branch<'r>(repo: &'r git2::Repository, name: &str) -> (r: Result<
    git2::Branch<'r>,
    git2::Error,
>) {
    repo.find_branch(name, git2::BranchType::Local)
}

/// Calls `git2::Branch::upstream`: the branch that this one tracks, or a
/// failure when it tracks none.
#[verifier::external_body]
pub(crate) fn branch_upstream<'r>(branch: &git2::Branch<'r>) -> (r: Result<
    git2::Branch<'r>,
    git2::Error,
>) {
    branch.upstream()
}

/// Calls `git2::Branch::get`: the reference that the branch is.
#[verifier::external_body]
pub(crate) fn branch_reference<'a, 'r>(branch: &'a git2::Branch<'r>) -> (r: &'a git2::Reference<
    'r,
>) {
    branch.get()
}

/// Calls `git2::Branch::set_upstream` with a name.
#[verifier::external_body]
pub(crate) fn branch_set_upstream(branch: &mut git2::Branch<'_>, upstream: &str) -> (r: Result<
    (),
    git2::Error,
>) {
    branch.set_upstream(Some(upstream))
}

/// Calls `git2::Repository::config`: the configuration of the repository,
/// behind which the global and system files stand.
#[verifier::external_body]
pub(crate) fn repo_config(repo: &git2::Repository) -> (r: Result<git2::Config, git2::Error>) {
    repo.config()
}

/// Calls `git2::Config::open_level` for the level of the repository's own
/// file, which leaves the global and system files out.
#[verifier::external_body]
pub(crate) fn config_local_level(config: &git2::Config) -> (r: Result<git2::Config, git2::Error>) {
    config.open_level(git2::ConfigLevel::Local)
}

/// Calls `git2::Config::open_default`: the global, XDG and system files.
#[verifier::external_body]
pub(crate) fn default_config() -> (r: Result<git2::Config, git2::Error>) {
    git2::Config::open_default()
}

/// Calls `git2::Config::get_string`.
#[verifier::external_body]
pub(crate) fn config_string(config: &git2::Config, key: &str) -> (r: Result<String, git2::Error>) {
    config.get_string(key)
}

/// Calls `git2::Config::set_str`, which writes to the file of the highest
/// level.
#[verifier::external_body]
pub(crate) fn config_set(config: &mut git2::Config, key: &str, value: &str) -> (r: Result<
    (),
    git2::Error,
>) {
    config.set_str(key, value)
}

/// Calls `git2::Repository::remote`, which adds a remote with the default
/// fetch refspec, and drops the handle to it.
#[verifier::external_body]
pub(crate) fn add_remote(repo: &git2::Repository, name: &str, url: &str) -> (r: Result<
    (),
    git2::Error,
>) {
    repo.remote(name, url).map(|_| ())
}

/// Calls `git2::Repository::remote_set_url`.
#[verifier::external_body]
pub(crate) fn set_remote_url(repo: &git2::Repository, name: &str, url: &str) -> (r: Result<
    (),
    git2::Error,
>) {
    repo.remote_set_url(name, url)
}

/// Calls `git2::Cred::userpass_plaintext`.
#[verifier::external_body]
pub(crate) fn cred_plaintext(username: &str, password: &str) -> (r: Result<
    git2::Cred,
    git2::Error,
>) {
    git2::Cred::userpass_plaintext(username, password)
}

/// Calls `git2::Cred::ssh_key_from_agent`.
#[verifier::external_body]
pub(crate) fn cred_agent(username: &str) -> (r: Result<git2::Cred, git2::Error>) {
    git2::Cred::ssh_key_from_agent(username)
}

/// Calls `git2::Cred::default`.
#[verifier::external_body]
pub(crate) fn cred_default() -> (r: Result<git2::Cred, git2::Error>) {
    git2::Cred::default()
}

/// Reads the four flags of a `git2::Status` that the classification uses.
#[verifier::external_body]
pub(crate) fn change_flags(status: git2::Status) -> (r: ChangeFlags) {
    ChangeFlags {
        worktree_modified: status.is_wt_modified(),
        worktree_new: status.is_wt_new(),
        index_modified: status.is_index_modified(),
        index_new: status.is_index_new(),
    }
}

} // verus!

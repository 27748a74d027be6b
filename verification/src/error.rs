//! The typed failures of the version-control core.

use vstd::prelude::*;

verus! {

/// What class of failure the backend reported, as far as the core tells them
/// apart.
#[derive(Clone, Copy, Debug, PartialEq, Eq, Structural)]
pub enum FailureKind {
    /// HEAD names a branch that has no commit yet.
    UnbornBranch,
    /// The thing looked up does not exist.
    NotFound,
    /// Anything else.
    Other,
}

/// A failure of the backend in plain values.
#[derive(Clone, Debug)]
pub struct Failure {
    pub kind: FailureKind,
    /// The bare message of the backend.
    pub message: String,
    /// The message with the backend's class and code, as it is shown.
    pub display: String,
}

/// Why an operation of the core failed.
#[derive(Debug)]
pub enum GitError {
    /// The handle holds no repository.
    NotARepository,
    /// HEAD points at no commit yet.
    EmptyRepository,
    /// The named remote is not configured.
    RemoteNotFound(String),
    /// The named local branch does not exist.
    LocalBranchMissing(String),
    /// The transport rejected the credentials.
    AuthenticationFailed,
    /// The remote branch has diverged.
    NonFastForward,
    /// The named branch tracks nothing.
    NoUpstreamSet(String),
    /// The push failed for another reason; the transport's message is kept.
    PushFailed(String),
    /// No author identity is configured.
    ConfigIncomplete,
    /// No secret is stored for the remote.
    CredentialNotFound,
    /// Any other failure of the repository backend, with its message.
    Backend(String),
}

/// A failure with the texts of its strings.
pub enum GitErrorView {
    NotARepository,
    EmptyRepository,
    RemoteNotFound(Seq<char>),
    LocalBranchMissing(Seq<char>),
    AuthenticationFailed,
    NonFastForward,
    NoUpstreamSet(Seq<char>),
    PushFailed(Seq<char>),
    ConfigIncomplete,
    CredentialNotFound,
    Backend(Seq<char>),
}

impl View for GitError {
    type V = GitErrorView;

    open spec fn view(&self) -> GitErrorView {
        match self {
            GitError::NotARepository => GitErrorView::NotARepository,
            GitError::EmptyRepository => GitErrorView::EmptyRepository,
            GitError::RemoteNotFound(name) => GitErrorView::RemoteNotFound(name@),
            GitError::LocalBranchMissing(name) => GitErrorView::LocalBranchMissing(name@),
            GitError::AuthenticationFailed => GitErrorView::AuthenticationFailed,
            GitError::NonFastForward => GitErrorView::NonFastForward,
            GitError::NoUpstreamSet(name) => GitErrorView::NoUpstreamSet(name@),
            GitError::PushFailed(raw) => GitErrorView::PushFailed(raw@),
            GitError::ConfigIncomplete => GitErrorView::ConfigIncomplete,
            GitError::CredentialNotFound => GitErrorView::CredentialNotFound,
            GitError::Backend(text) => GitErrorView::Backend(text@),
        }
    }
}

/// The text shown for a failure.
pub open spec fn message_of(e: GitErrorView) -> Seq<char> {
    match e {
        GitErrorView::NotARepository => "Not a git repository"@,
        GitErrorView::EmptyRepository => "No commits to push (repository is empty)"@,
        GitErrorView::RemoteNotFound(name) => "Remote '"@ + name
            + "' not found. Make sure to add the remote first: git remote add "@ + name
            + " <url>"@,
        GitErrorView::LocalBranchMissing(name) => "Local branch '"@ + name
            + "' does not exist. Create it first: git checkout -b "@ + name,
        GitErrorView::AuthenticationFailed =>
            "Authentication failed. Please check your credentials or Personal Access Token."@,
        GitErrorView::NonFastForward =>
            "Push rejected - remote branch has diverged. Pull first to merge changes."@,
        GitErrorView::NoUpstreamSet(name) => "Branch '"@ + name
            + "' has no upstream branch set. The push may have succeeded but you should set the upstream: git branch --set-upstream-to=origin/"@
            + name,
        GitErrorView::PushFailed(raw) => "Push failed: "@ + raw,
        GitErrorView::ConfigIncomplete => "Git user name and email are not configured"@,
        GitErrorView::CredentialNotFound => "No stored credentials found"@,
        GitErrorView::Backend(text) => text,
    }
}

impl GitError {
    /// The text shown for this failure.
    pub fn message(&self) -> (r: String)
        ensures
            r@ == message_of(self@),
    {
        match self {
            GitError::NotARepository => String::from_str("Not a git repository"),
            GitError::EmptyRepository => String::from_str(
                "No commits to push (repository is empty)",
            ),
            GitError::RemoteNotFound(name) => {
                let mut out = String::from_str("Remote '");
                out.append(name.as_str());
                out.append("' not found. Make sure to add the remote first: git remote add ");
                out.append(name.as_str());
                out.append(" <url>");
                out
            },
            GitError::LocalBranchMissing(name) => {
                let mut out = String::from_str("Local branch '");
                out.append(name.as_str());
                out.append("' does not exist. Create it first: git checkout -b ");
                out.append(name.as_str());
                out
            },
            GitError::AuthenticationFailed => String::from_str(
                "Authentication failed. Please check your credentials or Personal Access Token.",
            ),
            GitError::NonFastForward => String::from_str(
                "Push rejected - remote branch has diverged. Pull first to merge changes.",
            ),
            GitError::NoUpstreamSet(name) => {
                let mut out = String::from_str("Branch '");
                out.append(name.as_str());
                out.append(
                    "' has no upstream branch set. The push may have succeeded but you should set the upstream: git branch --set-upstream-to=origin/",
                );
                out.append(name.as_str());
                out
            },
            GitError::PushFailed(raw) => {
                let mut out = String::from_str("Push failed: ");
                out.append(raw.as_str());
                out
            },
            GitError::ConfigIncomplete => String::from_str(
                "Git user name and email are not configured",
            ),
            GitError::CredentialNotFound => String::from_str("No stored credentials found"),
            GitError::Backend(text) => text.clone(),
        }
    }

    /// The failure that stands for a failure of the backend: it carries the
    /// text that the backend shows.
    pub fn from_failure(failure: &Failure) -> (r: GitError)
        ensures
            r@ == GitErrorView::Backend(failure.display@),
    {
        GitError::Backend(failure.display.clone())
    }
}

} // verus!

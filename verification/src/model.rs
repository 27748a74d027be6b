//! The value snapshots that the core returns.

use vstd::prelude::*;

verus! {

/// A point-in-time snapshot of the branch and the three change sets.
#[derive(Clone, Debug)]
pub struct GitStatus {
    pub branch: String,
    pub modified: Vec<String>,
    pub untracked: Vec<String>,
    pub staged: Vec<String>,
    pub is_git_repo: bool,
}

/// A historical commit as the history view shows it.
#[derive(Clone, Debug)]
pub struct GitCommit {
    pub hash: String,
    pub message: String,
    pub author: String,
    pub timestamp: i64,
    pub is_on_head: bool,
    pub is_on_upstream: bool,
}

/// The identity configuration of a repository.
#[derive(Clone, Debug)]
pub struct GitConfig {
    pub user_name: Option<String>,
    pub user_email: Option<String>,
    pub is_configured: bool,
}

/// The outcome of initialising or verifying a repository.
#[derive(Clone, Debug)]
pub struct GitInitResult {
    pub success: bool,
    pub message: String,
    pub needs_config: bool,
    pub git_config: Option<GitConfig>,
}

/// The texts of a list of strings.
pub open spec fn texts(v: Seq<String>) -> Seq<Seq<char>> {
    v.map_values(|s: String| s@)
}

impl GitStatus {
    /// A status is well formed when a snapshot of no repository is empty.
    pub open spec fn wf(&self) -> bool {
        !self.is_git_repo ==> self.branch@.len() == 0 && self.modified@.len() == 0
            && self.untracked@.len() == 0 && self.staged@.len() == 0
    }

    /// The snapshot reported for a path that holds no repository.
    pub fn absent() -> (r: GitStatus)
        ensures
            !r.is_git_repo,
            r.branch@ == Seq::<char>::empty(),
            r.modified@ == Seq::<String>::empty(),
            r.untracked@ == Seq::<String>::empty(),
            r.staged@ == Seq::<String>::empty(),
            r.wf(),
    {
        GitStatus {
            branch: String::new(),
            modified: Vec::new(),
            untracked: Vec::new(),
            staged: Vec::new(),
            is_git_repo: false,
        }
    }
}

impl GitConfig {
    /// An identity is configured when both name and email are present.
    pub open spec fn wf(&self) -> bool {
        self.is_configured == (self.user_name is Some && self.user_email is Some)
    }

    /// The configuration made of the two fields as read.
    pub fn from_identity(user_name: Option<String>, user_email: Option<String>) -> (r: GitConfig)
        ensures
            r.user_name == user_name,
            r.user_email == user_email,
            r.is_configured == (user_name is Some && user_email is Some),
            r.wf(),
    {
        let is_configured = user_name.is_some() && user_email.is_some();
        GitConfig { user_name, user_email, is_configured }
    }

    /// The placeholder for a repository whose identity is not set.
    pub fn unset() -> (r: GitConfig)
        ensures
            r.user_name is None,
            r.user_email is None,
            !r.is_configured,
            r.wf(),
    {
        GitConfig { user_name: None, user_email: None, is_configured: false }
    }
}

} // verus!

//! Initialising a repository, or verifying one that exists: what is reported
//! in each case, and the ignore file that a new repository starts with.

use vstd::prelude::*;
use crate::error::{GitError, GitErrorView};
use crate::model::{GitConfig, GitInitResult};

verus! {

/// The ignore file of a new repository: exclusion patterns for dependency,
/// build, editor and operating-system artefacts.
pub const DEFAULT_GITIGNORE: &'static str = "# Dependencies
node_modules/
npm-debug.log*
yarn-debug.log*
yarn-error.log*
package-lock.json

# Build outputs
dist/
build/
target/
*.exe
*.dll
*.so
*.dylib

# Environment variables
.env
.env.local
.env.development.local
.env.test.local
.env.production.local

# IDE and editor files
.vscode/
.idea/
*.swp
*.swo
*~

# OS generated files
.DS_Store
.DS_Store?
._*
.Spotlight-V100
.Trashes
ehthumbs.db
Thumbs.db

# Logs
*.log
logs/

# Runtime data
pids
*.pid
*.seed
*.pid.lock

# Temporary folders
tmp/
temp/
";

/// The name of the ignore file at the root of a repository.
pub const IGNORE_FILE_NAME: &'static str = ".gitignore";

/// A file that is still to be written at the root of the repository. The
/// core does no file I/O of its own: it hands the file to its caller.
#[derive(Clone, Debug)]
pub struct IgnoreFile {
    /// The name of the file, relative to the root of the repository.
    pub name: String,
    pub content: String,
}

impl IgnoreFile {
    /// The file is the default ignore file.
    pub open spec fn is_default(&self) -> bool {
        self.name@ == IGNORE_FILE_NAME@ && self.content@ == DEFAULT_GITIGNORE@
    }

    /// The default ignore file.
    pub fn scaffold() -> (r: IgnoreFile)
        ensures
            r.is_default(),
    {
        IgnoreFile { name: String::from_str(IGNORE_FILE_NAME), content: create_default_gitignore() }
    }
}

/// The content of the default ignore file.
pub fn create_default_gitignore() -> (r: String)
    ensures
        r@ == DEFAULT_GITIGNORE@,
{
    String::from_str(DEFAULT_GITIGNORE)
}

/// What an initialise-or-verify call reports, and what is left to do.
#[derive(Clone, Debug)]
pub struct InitOutcome {
    pub result: GitInitResult,
    /// The ignore file to write, present exactly when the repository was
    /// created by this call. A failure to write it must not fail the call.
    pub ignore_file: Option<IgnoreFile>,
}

/// The report for a repository that this call created: it carries the
/// identity that holds for the repository and needs configuration exactly
/// when that identity is not complete; it is then the unset placeholder.
pub open spec fn is_created_report(r: GitInitResult) -> bool {
    &&& r.success
    &&& r.git_config matches Some(c)
    &&& c.wf()
    &&& r.needs_config == !c.is_configured
    &&& if r.needs_config {
        &&& r.message@ == "Git repository initialized. Please configure user name and email."@
        &&& c.user_name is None
        &&& c.user_email is None
    } else {
        r.message@ == "Git repository initialized successfully with global configuration"@
    }
}

/// The report for a repository that was there already: it needs
/// configuration exactly when the identity that was read is not complete,
/// and also when none could be read.
pub open spec fn is_existing_report(r: GitInitResult) -> bool {
    &&& r.success
    &&& match r.git_config {
        Some(c) => {
            &&& r.needs_config == !c.is_configured
            &&& r.message@ == if c.is_configured {
                "Git repository already exists and is properly configured"@
            } else {
                "Git repository exists but needs user configuration"@
            }
        },
        None => {
            &&& r.needs_config
            &&& r.message@ == "Git repository exists but configuration could not be read"@
        },
    }
}

/// The report for a repository that could not be created.
pub open spec fn is_failed_report(r: GitInitResult) -> bool {
    &&& !r.success
    &&& !r.needs_config
    &&& r.git_config is None
    &&& "Failed to initialize Git repository: "@.is_prefix_of(r.message@)
}

/// Every report of success that carries a configuration needs configuration
/// exactly when that configuration is not complete.
pub proof fn lemma_needs_config_iff_incomplete(r: GitInitResult, c: GitConfig)
    requires
        is_existing_report(r) || is_created_report(r),
        r.git_config == Some(c),
    ensures
        r.success,
        r.needs_config <==> !c.is_configured,
{
}

/// The report for a repository that exists already, given the read of its
/// identity. The call is advisory then: it succeeds even when the
/// configuration cannot be read.
pub fn existing_result(config: Result<GitConfig, GitError>) -> (r: GitInitResult)
    ensures
        is_existing_report(r),
        match config {
            Ok(c) => {
                &&& r.git_config == Some(c)
                &&& r.needs_config == !c.is_configured
                &&& r.message@ == if c.is_configured {
                    "Git repository already exists and is properly configured"@
                } else {
                    "Git repository exists but needs user configuration"@
                }
            },
            Err(_) => {
                &&& r.git_config is None
                &&& r.needs_config
                &&& r.message@ == "Git repository exists but configuration could not be read"@
            },
        },
{
    match config {
        Ok(c) => {
            if c.is_configured {
                GitInitResult {
                    success: true,
                    message: String::from_str(
                        "Git repository already exists and is properly configured",
                    ),
                    needs_config: false,
                    git_config: Some(c),
                }
            } else {
                GitInitResult {
                    success: true,
                    message: String::from_str("Git repository exists but needs user configuration"),
                    needs_config: true,
                    git_config: Some(c),
                }
            }
        },
        Err(_) => GitInitResult {
            success: true,
            message: String::from_str("Git repository exists but configuration could not be read"),
            needs_config: true,
            git_config: None,
        },
    }
}

/// The report for a repository that this call created, given the user name
/// and the email that the global configuration holds. With both, the
/// repository is ready and the report carries them, for they are the
/// identity that its commits get. With one missing, the repository needs
/// configuration and the report carries the unset placeholder.
pub fn created_result(global_name: Option<String>, global_email: Option<String>) -> (r:
    GitInitResult)
    ensures
        is_created_report(r),
        r.needs_config == !(global_name is Some && global_email is Some),
        !r.needs_config ==> (r.git_config matches Some(c) && c.user_name == global_name
            && c.user_email == global_email),
{
    let global = GitConfig::from_identity(global_name, global_email);
    if global.is_configured {
        GitInitResult {
            success: true,
            message: String::from_str(
                "Git repository initialized successfully with global configuration",
            ),
            needs_config: false,
            git_config: Some(global),
        }
    } else {
        GitInitResult {
            success: true,
            message: String::from_str(
                "Git repository initialized. Please configure user name and email.",
            ),
            needs_config: true,
            git_config: Some(GitConfig::unset()),
        }
    }
}

/// The text of the report when the repository could not be created.
pub open spec fn failed_message_of(reason: Seq<char>) -> Seq<char> {
    "Failed to initialize Git repository: "@ + reason
}

/// The report for a repository that could not be created, with the
/// backend's `reason`.
pub fn failed_result(reason: &str) -> (r: GitInitResult)
    ensures
        is_failed_report(r),
        r.message@ == failed_message_of(reason@),
{
    let mut message = String::from_str("Failed to initialize Git repository: ");
    message.append(reason);
    GitInitResult { success: false, message, needs_config: false, git_config: None }
}

/// The outcome of the plain initialise call for a report: nothing on
/// success but the ignore file still to be written, and the report's message
/// as a failure otherwise.
pub fn plain_outcome(outcome: InitOutcome) -> (r: Result<Option<IgnoreFile>, GitError>)
    ensures
        outcome.result.success ==> r == Ok::<Option<IgnoreFile>, GitError>(outcome.ignore_file),
        !outcome.result.success ==> (r matches Err(e) && e@ == GitErrorView::Backend(
            outcome.result.message@,
        )),
{
    if outcome.result.success {
        Ok(outcome.ignore_file)
    } else {
        Err(GitError::Backend(outcome.result.message))
    }
}

} // verus!

use ide_backend::commands::{or_default, report, DEFAULT_BRANCH, DEFAULT_REMOTE};
use ide_backend::error::{Failure, FailureKind, GitError};

#[test]
fn each_failure_has_its_text() {
    assert_eq!(GitError::NotARepository.message(), "Not a git repository");
    assert_eq!(GitError::EmptyRepository.message(), "No commits to push (repository is empty)");
    assert_eq!(
        GitError::RemoteNotFound("origin".to_string()).message(),
        "Remote 'origin' not found. Make sure to add the remote first: git remote add origin <url>"
    );
    assert_eq!(
        GitError::LocalBranchMissing("dev".to_string()).message(),
        "Local branch 'dev' does not exist. Create it first: git checkout -b dev"
    );
    assert_eq!(
        GitError::AuthenticationFailed.message(),
        "Authentication failed. Please check your credentials or Personal Access Token."
    );
    assert_eq!(
        GitError::NonFastForward.message(),
        "Push rejected - remote branch has diverged. Pull first to merge changes."
    );
    assert_eq!(
        GitError::NoUpstreamSet("dev".to_string()).message(),
        "Branch 'dev' has no upstream branch set. The push may have succeeded but you should set the upstream: git branch --set-upstream-to=origin/dev"
    );
    assert_eq!(GitError::PushFailed("timeout".to_string()).message(), "Push failed: timeout");
    assert_eq!(
        GitError::ConfigIncomplete.message(),
        "Git user name and email are not configured"
    );
    assert_eq!(GitError::CredentialNotFound.message(), "No stored credentials found");
    assert_eq!(GitError::Backend("odb is corrupt".to_string()).message(), "odb is corrupt");
}

#[test]
fn backend_failure_carries_the_display() {
    let failure = Failure {
        kind: FailureKind::Other,
        message: "bare".to_string(),
        display: "bare; class=Os (2)".to_string(),
    };
    match GitError::from_failure(&failure) {
        GitError::Backend(text) => assert_eq!(text, "bare; class=Os (2)"),
        other => panic!("unexpected failure: {:?}", other),
    }
}

#[test]
fn report_prefixes_the_failure() {
    let ok: Result<u32, String> = report(Ok(7), "Failed to count: ");
    assert_eq!(ok, Ok(7));
    let failed: Result<u32, String> = report(Err(GitError::NotARepository), "Failed to stage file: ");
    assert_eq!(failed, Err("Failed to stage file: Not a git repository".to_string()));
    let pushed: Result<(), String> =
        report(Err(GitError::PushFailed("reset".to_string())), "Failed to push: ");
    assert_eq!(pushed, Err("Failed to push: Push failed: reset".to_string()));
}

#[test]
fn request_defaults() {
    assert_eq!(DEFAULT_REMOTE, "origin");
    assert_eq!(DEFAULT_BRANCH, "main");
    assert_eq!(or_default(None, DEFAULT_REMOTE), "origin");
    assert_eq!(or_default(Some("fork".to_string()), DEFAULT_REMOTE), "fork");
    assert_eq!(or_default(Some(String::new()), DEFAULT_BRANCH), "");
}

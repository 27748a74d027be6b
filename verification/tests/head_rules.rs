use ide_backend::commit::{commit_plan, commit_target, identity_failure, CommitPlan};
use ide_backend::error::{Failure, FailureKind, GitError};
use ide_backend::head::{branch_label, head_state, HeadRef, HeadState};
use ide_backend::remote::lacks_commits;

fn failure(kind: FailureKind) -> Failure {
    Failure { kind, message: "boom".to_string(), display: "boom; class=Odb (9)".to_string() }
}

fn oid() -> git2::Oid {
    git2::Oid::from_str("0123456789abcdef0123456789abcdef01234567").unwrap()
}

#[test]
fn unborn_failure_is_a_state_and_others_are_failures() {
    assert!(matches!(head_state(Err(failure(FailureKind::UnbornBranch))), Ok(HeadState::Unborn)));
    match head_state(Err(failure(FailureKind::NotFound))) {
        Err(f) => {
            assert_eq!(f.kind, FailureKind::NotFound);
            assert_eq!(f.message, "boom");
        }
        other => panic!("unexpected state: {:?}", other),
    }
    assert!(head_state(Err(failure(FailureKind::Other))).is_err());
    match head_state(Ok(HeadRef { shorthand: Some("dev".to_string()), target: Some(oid()) })) {
        Ok(HeadState::Resolved(head)) => {
            assert_eq!(head.shorthand.as_deref(), Some("dev"));
            assert_eq!(head.target, Some(oid()));
        }
        other => panic!("unexpected state: {:?}", other),
    }
}

#[test]
fn branch_label_defaults() {
    assert_eq!(branch_label(&HeadState::Unborn), "main");
    let named = HeadState::Resolved(HeadRef { shorthand: Some("dev".to_string()), target: None });
    assert_eq!(branch_label(&named), "dev");
    let unnamed = HeadState::Resolved(HeadRef { shorthand: None, target: Some(oid()) });
    assert_eq!(branch_label(&unnamed), "HEAD");
}

#[test]
fn commit_topology_follows_head() {
    assert!(matches!(commit_plan(&HeadState::Unborn), Ok(CommitPlan::Root)));
    let resolved = HeadState::Resolved(HeadRef { shorthand: None, target: Some(oid()) });
    match commit_plan(&resolved) {
        Ok(CommitPlan::Parented(parent)) => assert_eq!(parent, oid()),
        other => panic!("unexpected plan: {:?}", other),
    }
    let dangling = HeadState::Resolved(HeadRef { shorthand: Some("x".to_string()), target: None });
    match commit_plan(&dangling) {
        Err(GitError::Backend(text)) => assert_eq!(text, "HEAD has no target"),
        other => panic!("unexpected plan: {:?}", other),
    }
}

#[test]
fn missing_identity_is_missing_configuration() {
    assert!(matches!(
        identity_failure(&failure(FailureKind::NotFound)),
        GitError::ConfigIncomplete
    ));
    match identity_failure(&failure(FailureKind::Other)) {
        GitError::Backend(text) => assert_eq!(text, "boom; class=Odb (9)"),
        other => panic!("unexpected failure: {:?}", other),
    }
    match identity_failure(&failure(FailureKind::UnbornBranch)) {
        GitError::Backend(_) => {}
        other => panic!("unexpected failure: {:?}", other),
    }
}

#[test]
fn only_a_known_empty_head_blocks_a_push() {
    assert!(lacks_commits(&Ok(HeadState::Unborn)));
    assert!(lacks_commits(&Ok(HeadState::Resolved(HeadRef { shorthand: None, target: None }))));
    assert!(!lacks_commits(&Ok(HeadState::Resolved(HeadRef {
        shorthand: None,
        target: Some(oid())
    }))));
    assert!(!lacks_commits(&Err(failure(FailureKind::Other))));
}

#[test]
fn root_commit_starts_the_default_branch() {
    assert_eq!(ide_backend::commit::ROOT_REFERENCE, "refs/heads/main");
    assert_eq!(ide_backend::commit::HEAD_REFERENCE, "HEAD");
}

#[test]
fn commit_target_follows_the_plan() {
    let root = commit_target(&CommitPlan::Root);
    assert_eq!(root.update_ref, "refs/heads/main");
    assert!(root.parent.is_none());
    assert!(root.move_head);

    let next = commit_target(&CommitPlan::Parented(oid()));
    assert_eq!(next.update_ref, "HEAD");
    assert_eq!(next.parent, Some(oid()));
    assert!(!next.move_head);
}

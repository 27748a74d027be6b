use ide_backend::error::GitError;
use ide_backend::init::{DEFAULT_GITIGNORE, IGNORE_FILE_NAME};
use ide_backend::manager::GitManager;
use ide_backend::repository::{
    clear_git_credentials, get_git_config, init_git_repo, init_git_repo_enhanced,
    is_git_repository, save_git_credentials, set_git_config, set_remote,
};

fn fresh_path(tag: &str) -> String {
    let nanos = std::time::SystemTime::now()
        .duration_since(std::time::UNIX_EPOCH)
        .map(|d| d.as_nanos())
        .unwrap_or(0);
    format!("/tmp/ide_backend_{}_{}", tag, nanos)
}

fn fresh_repo(tag: &str) -> String {
    let path = fresh_path(tag);
    let outcome = init_git_repo_enhanced(&path);
    assert!(outcome.result.success);
    set_git_config(&path, "Tester", "tester@example.com").unwrap();
    path
}

/// Puts a file into the working tree through a checkout of an index entry,
/// then takes it out of the index again, so that it is untracked.
fn write_file(repo_path: &str, name: &str, content: &[u8]) {
    let repo = git2::Repository::open(repo_path).unwrap();
    let mut index = repo.index().unwrap();
    let entry = git2::IndexEntry {
        ctime: git2::IndexTime::new(0, 0),
        mtime: git2::IndexTime::new(0, 0),
        dev: 0,
        ino: 0,
        mode: 0o100644,
        uid: 0,
        gid: 0,
        file_size: 0,
        id: git2::Oid::zero(),
        flags: 0,
        flags_extended: 0,
        path: name.as_bytes().to_vec(),
    };
    index.add_frombuffer(&entry, content).unwrap();
    let mut options = git2::build::CheckoutBuilder::new();
    options.force().path(name);
    repo.checkout_index(Some(&mut index), Some(&mut options)).unwrap();
    drop(index);
    drop(repo);
    GitManager::new(repo_path).unstage_file(name).unwrap();
}

#[test]
fn path_without_repository_is_probed_softly() {
    let path = fresh_path("absent");
    assert!(!is_git_repository(&path));
    let manager = GitManager::new(&path);
    assert!(!manager.is_git_repo());
    let status = manager.get_status(&path).unwrap();
    assert!(!status.is_git_repo);
    assert_eq!(status.branch, "");
    assert!(status.modified.is_empty());
    assert!(status.untracked.is_empty());
    assert!(status.staged.is_empty());
}

#[test]
fn every_operation_on_an_empty_handle_fails_with_not_a_repository() {
    let path = fresh_path("empty_handle");
    let manager = GitManager::new(&path);
    assert!(matches!(manager.stage_file("a.txt"), Err(GitError::NotARepository)));
    assert!(matches!(manager.unstage_file("a.txt"), Err(GitError::NotARepository)));
    assert!(matches!(manager.commit("msg"), Err(GitError::NotARepository)));
    assert!(matches!(manager.get_recent_commits(5), Err(GitError::NotARepository)));
    assert!(matches!(manager.push("origin", "main", None, None), Err(GitError::NotARepository)));
    assert!(matches!(manager.pull("origin", "main"), Err(GitError::NotARepository)));
    assert!(matches!(get_git_config(&path), Err(GitError::NotARepository)));
    assert!(matches!(set_git_config(&path, "n", "e"), Err(GitError::NotARepository)));
    assert!(matches!(set_remote(&path, "origin", "/tmp/x"), Err(GitError::NotARepository)));
    assert!(matches!(
        save_git_credentials(&path, "origin", "git", "secret"),
        Err(GitError::NotARepository)
    ));
    assert!(matches!(
        clear_git_credentials(&path, "origin", "git"),
        Err(GitError::NotARepository)
    ));
    assert!(!is_git_repository(&path));
}

#[test]
fn init_creates_then_verifies() {
    let path = fresh_path("init_twice");
    let first = init_git_repo_enhanced(&path);
    assert!(first.result.success);
    let file = first.ignore_file.expect("a new repository comes with an ignore file");
    assert_eq!(file.name, IGNORE_FILE_NAME);
    assert_eq!(file.content, DEFAULT_GITIGNORE);
    assert!(is_git_repository(&path));

    set_git_config(&path, "Ada", "ada@example.com").unwrap();
    let second = init_git_repo_enhanced(&path);
    assert!(second.result.success);
    assert!(second.ignore_file.is_none());
    assert!(!second.result.needs_config);
    assert_eq!(
        second.result.message,
        "Git repository already exists and is properly configured"
    );
    let config = second.result.git_config.unwrap();
    assert_eq!(config.user_name.as_deref(), Some("Ada"));
    assert_eq!(config.user_email.as_deref(), Some("ada@example.com"));
    assert!(config.is_configured);

    let third = get_git_config(&path).unwrap();
    assert_eq!(third.user_name.as_deref(), Some("Ada"));
    assert_eq!(third.user_email.as_deref(), Some("ada@example.com"));
}

#[test]
fn plain_init_reports_the_ignore_file_once() {
    let path = fresh_path("plain_init");
    let first = init_git_repo(&path).unwrap();
    assert!(first.is_some());
    let second = init_git_repo(&path).unwrap();
    assert!(second.is_none());
}

#[test]
fn needs_config_mirrors_the_configured_flag() {
    let path = fresh_path("needs_config");
    let first = init_git_repo_enhanced(&path);
    assert!(first.result.success);
    let again = init_git_repo_enhanced(&path);
    assert!(again.result.success);
    let config = again.result.git_config.unwrap();
    assert_eq!(again.result.needs_config, !config.is_configured);
    assert_eq!(config.is_configured, config.user_name.is_some() && config.user_email.is_some());
}

#[test]
fn fresh_repository_is_on_the_default_branch_with_no_changes() {
    let path = fresh_repo("fresh_status");
    let manager = GitManager::new(&path);
    assert!(manager.is_git_repo());
    let status = manager.get_status(&path).unwrap();
    assert!(status.is_git_repo);
    assert_eq!(status.branch, "main");
    assert!(status.modified.is_empty());
    assert!(status.untracked.is_empty());
    assert!(status.staged.is_empty());
    assert!(manager.get_recent_commits(10).unwrap().is_empty());
}

#[test]
fn staging_moves_a_path_between_the_lists() {
    let path = fresh_repo("stage");
    write_file(&path, "a.txt", b"hello\n");
    let manager = GitManager::new(&path);

    let before = manager.get_status(&path).unwrap();
    assert_eq!(before.untracked, vec!["a.txt".to_string()]);
    assert!(before.staged.is_empty());
    assert!(before.modified.is_empty());

    manager.stage_file("a.txt").unwrap();
    let staged = GitManager::new(&path).get_status(&path).unwrap();
    assert_eq!(staged.staged, vec!["a.txt".to_string()]);
    assert!(staged.untracked.is_empty());
    assert!(staged.modified.is_empty());

    manager.unstage_file("a.txt").unwrap();
    let after = GitManager::new(&path).get_status(&path).unwrap();
    assert_eq!(after.untracked, vec!["a.txt".to_string()]);
    assert!(after.staged.is_empty());
    assert!(after.modified.is_empty());
}

#[test]
fn staging_a_missing_file_is_a_backend_failure() {
    let path = fresh_repo("stage_missing");
    let manager = GitManager::new(&path);
    assert!(matches!(manager.stage_file("nothing.txt"), Err(GitError::Backend(_))));
}

#[test]
fn first_commit_is_a_root_and_the_second_has_it_as_parent() {
    let path = fresh_repo("commit");
    write_file(&path, "a.txt", b"one\n");
    let manager = GitManager::new(&path);
    manager.stage_file("a.txt").unwrap();
    let first = manager.commit("msg").unwrap();
    assert_eq!(first.len(), 40);

    let second = manager.commit("msg2").unwrap();
    assert_ne!(first, second);

    let repo = git2::Repository::open(&path).unwrap();
    let first_commit = repo.find_commit(git2::Oid::from_str(&first).unwrap()).unwrap();
    assert_eq!(first_commit.parent_count(), 0);
    let second_commit = repo.find_commit(git2::Oid::from_str(&second).unwrap()).unwrap();
    assert_eq!(second_commit.parent_count(), 1);
    assert_eq!(second_commit.parent_id(0).unwrap().to_string(), first);
    assert_eq!(repo.head().unwrap().shorthand(), Some("main"));
    assert_eq!(repo.head().unwrap().target().unwrap().to_string(), second);

    let status = manager.get_status(&path).unwrap();
    assert_eq!(status.branch, "main");
    assert!(status.staged.is_empty());
}

#[test]
fn commit_without_identity_needs_configuration() {
    let path = fresh_path("no_identity");
    let outcome = init_git_repo_enhanced(&path);
    assert!(outcome.result.success);
    if outcome.result.needs_config {
        let manager = GitManager::new(&path);
        assert!(matches!(manager.commit("msg"), Err(GitError::ConfigIncomplete)));
    }
}

#[test]
fn identity_is_read_from_the_repository_alone() {
    let path = fresh_path("own_identity");
    assert!(init_git_repo_enhanced(&path).result.success);
    let fresh = get_git_config(&path).unwrap();
    assert!(fresh.user_name.is_none());
    assert!(fresh.user_email.is_none());
    assert!(!fresh.is_configured);
    let again = init_git_repo_enhanced(&path);
    assert!(again.result.success && again.result.needs_config);
    assert_eq!(again.result.message, "Git repository exists but needs user configuration");

    {
        let repo = git2::Repository::open(&path).unwrap();
        let mut config = repo.config().unwrap();
        config.set_str("user.name", "Only Name").unwrap();
    }
    let partial = get_git_config(&path).unwrap();
    assert_eq!(partial.user_name.as_deref(), Some("Only Name"));
    assert!(partial.user_email.is_none());
    assert!(!partial.is_configured);
}

#[test]
fn recent_commits_are_newest_first_and_bounded() {
    let path = fresh_repo("history");
    let manager = GitManager::new(&path);
    let first = manager.commit("first").unwrap();
    let second = manager.commit("second").unwrap();
    let third = manager.commit("third").unwrap();

    let all = manager.get_recent_commits(10).unwrap();
    assert_eq!(all.len(), 3);
    assert_eq!(all[0].hash, third[..8]);
    assert_eq!(all[1].hash, second[..8]);
    assert_eq!(all[2].hash, first[..8]);
    assert_eq!(all[0].message, "third");
    assert_eq!(all[2].message, "first");
    for record in &all {
        assert_eq!(record.author, "Tester");
        assert!(record.is_on_head);
        assert!(!record.is_on_upstream);
        assert!(record.timestamp > 0);
    }

    let two = manager.get_recent_commits(2).unwrap();
    assert_eq!(two.len(), 2);
    assert_eq!(two[0].hash, third[..8]);
    assert_eq!(two[1].hash, second[..8]);
    assert!(manager.get_recent_commits(0).unwrap().is_empty());
}

#[test]
fn push_checks_come_before_the_remote() {
    let path = fresh_repo("push_checks");
    let manager = GitManager::new(&path);
    assert!(matches!(
        manager.push("origin", "main", None, None),
        Err(GitError::EmptyRepository)
    ));

    manager.commit("first").unwrap();
    match manager.push("nowhere", "main", None, None) {
        Err(GitError::RemoteNotFound(name)) => assert_eq!(name, "nowhere"),
        other => panic!("unexpected outcome: {:?}", other),
    }

    let bare = fresh_path("push_checks_remote");
    git2::Repository::init_bare(&bare).unwrap();
    set_remote(&path, "origin", &bare).unwrap();
    match manager.push("origin", "feature", None, None) {
        Err(GitError::LocalBranchMissing(name)) => assert_eq!(name, "feature"),
        other => panic!("unexpected outcome: {:?}", other),
    }
}

#[test]
fn push_to_a_local_remote_links_the_upstream() {
    let path = fresh_repo("push_ok");
    let manager = GitManager::new(&path);
    let first = manager.commit("first").unwrap();
    let bare = fresh_path("push_ok_remote");
    git2::Repository::init_bare(&bare).unwrap();
    set_remote(&path, "origin", &bare).unwrap();

    manager.push("origin", "main", None, None).unwrap();

    let remote = git2::Repository::open(&bare).unwrap();
    let tip = remote.find_reference("refs/heads/main").unwrap().target().unwrap();
    assert_eq!(tip.to_string(), first);

    let repo = git2::Repository::open(&path).unwrap();
    let branch = repo.find_branch("main", git2::BranchType::Local).unwrap();
    let upstream = branch.upstream().unwrap();
    assert_eq!(upstream.name().unwrap(), Some("origin/main"));

    let second = manager.commit("second").unwrap();
    let records = manager.get_recent_commits(10).unwrap();
    assert_eq!(records.len(), 2);
    assert_eq!(records[0].hash, second[..8]);
    assert!(!records[0].is_on_upstream);
    assert_eq!(records[1].hash, first[..8]);
    assert!(records[1].is_on_upstream);

    manager.pull("origin", "main").unwrap();
}

#[test]
fn set_remote_adds_then_updates() {
    let path = fresh_repo("set_remote");
    set_remote(&path, "origin", "https://example.com/a.git").unwrap();
    {
        let repo = git2::Repository::open(&path).unwrap();
        assert_eq!(repo.find_remote("origin").unwrap().url(), Some("https://example.com/a.git"));
    }
    set_remote(&path, "origin", "https://example.com/b.git").unwrap();
    let repo = git2::Repository::open(&path).unwrap();
    assert_eq!(repo.find_remote("origin").unwrap().url(), Some("https://example.com/b.git"));
}

#[test]
fn pull_from_a_missing_remote_is_a_backend_failure() {
    let path = fresh_repo("pull_missing");
    let manager = GitManager::new(&path);
    assert!(matches!(manager.pull("origin", "main"), Err(GitError::Backend(_))));
}

#[test]
fn credentials_of_a_missing_remote_are_a_backend_failure() {
    let path = fresh_repo("cred_missing_remote");
    assert!(matches!(
        save_git_credentials(&path, "origin", "git", "secret"),
        Err(GitError::Backend(_))
    ));
    assert!(matches!(clear_git_credentials(&path, "origin", "git"), Err(GitError::Backend(_))));
}

#[test]
fn clearing_a_secret_that_is_not_stored_is_excused() {
    let path = fresh_repo("cred_clear");
    set_remote(&path, "origin", "https://example.com/none.git").unwrap();
    match clear_git_credentials(&path, "origin", "nobody") {
        Ok(()) => {}
        Err(GitError::Backend(text)) => {
            assert_ne!(text, "No matching entry found in secure storage", "a missing entry is excused");
        }
        Err(other) => panic!("unexpected failure: {:?}", other),
    }
}

#[test]
fn saving_a_secret_succeeds_or_reports_the_store() {
    let path = fresh_repo("cred_save");
    set_remote(&path, "origin", "https://example.com/save.git").unwrap();
    match save_git_credentials(&path, "origin", "token", "s3cret") {
        Ok(()) => {
            assert!(clear_git_credentials(&path, "origin", "token").is_ok());
        }
        Err(GitError::Backend(text)) => {
            assert!(!text.is_empty());
            assert!(!text.contains("s3cret"));
        }
        Err(other) => panic!("unexpected failure: {:?}", other),
    }
}

#[test]
fn status_tells_modified_from_staged() {
    let path = fresh_repo("modified");
    write_file(&path, "a.txt", b"one\n");
    let manager = GitManager::new(&path);
    manager.stage_file("a.txt").unwrap();
    manager.commit("first").unwrap();
    let clean = manager.get_status(&path).unwrap();
    assert!(clean.modified.is_empty() && clean.staged.is_empty() && clean.untracked.is_empty());

    write_file(&path, "b.txt", b"two\n");
    write_file(&path, "c.txt", b"three\n");
    manager.stage_file("b.txt").unwrap();
    let status = GitManager::new(&path).get_status(&path).unwrap();
    assert_eq!(status.staged, vec!["b.txt".to_string()]);
    assert_eq!(status.untracked, vec!["c.txt".to_string()]);
    assert!(status.modified.is_empty());
}

#[test]
fn remote_with_a_push_url_alone_has_no_url() {
    let path = fresh_repo("push_url_only");
    {
        let repo = git2::Repository::open(&path).unwrap();
        let mut config = repo.config().unwrap();
        config.set_str("remote.mirror.pushurl", "https://example.com/mirror.git").unwrap();
    }
    match save_git_credentials(&path, "mirror", "git", "secret") {
        Err(GitError::Backend(text)) => assert_eq!(text, "Remote URL is missing or invalid"),
        other => panic!("unexpected outcome: {:?}", other),
    }
    match clear_git_credentials(&path, "mirror", "git") {
        Err(GitError::Backend(text)) => assert_eq!(text, "Remote URL is missing or invalid"),
        other => panic!("unexpected outcome: {:?}", other),
    }
}

#[test]
fn handle_holds_a_repository_exactly_when_the_opening_succeeded() {
    let missing = fresh_path("from_opened_missing");
    let absent = GitManager::from_opened(git2::Repository::open(&missing));
    assert!(!absent.is_git_repo());
    assert!(matches!(absent.stage_file("a.txt"), Err(GitError::NotARepository)));

    let path = fresh_repo("from_opened");
    let present = GitManager::from_opened(git2::Repository::open(&path));
    assert!(present.is_git_repo());
    assert_eq!(present.get_status(&path).unwrap().branch, "main");
}

#[test]
fn configuration_and_secrets_go_through_the_handle() {
    let missing = fresh_path("handle_ops_missing");
    let absent = GitManager::new(&missing);
    assert!(matches!(absent.get_config(), Err(GitError::NotARepository)));
    assert!(matches!(absent.set_config("n", "e"), Err(GitError::NotARepository)));
    assert!(matches!(absent.set_remote("origin", "/tmp/x"), Err(GitError::NotARepository)));
    assert!(matches!(
        absent.save_credentials("origin", "git", "secret"),
        Err(GitError::NotARepository)
    ));
    assert!(matches!(absent.clear_credentials("origin", "git"), Err(GitError::NotARepository)));

    let path = fresh_path("handle_ops");
    assert!(init_git_repo_enhanced(&path).result.success);
    let manager = GitManager::new(&path);
    manager.set_config("Grace", "grace@example.com").unwrap();
    let config = manager.get_config().unwrap();
    assert_eq!(config.user_name.as_deref(), Some("Grace"));
    assert_eq!(config.user_email.as_deref(), Some("grace@example.com"));
    assert!(config.is_configured);
    manager.set_remote("origin", "https://example.com/handle.git").unwrap();
    match manager.clear_credentials("origin", "nobody") {
        Ok(()) => {}
        Err(GitError::Backend(text)) => {
            assert_ne!(text, "No matching entry found in secure storage", "a missing entry is excused");
        }
        Err(other) => panic!("unexpected failure: {:?}", other),
    }
    assert!(matches!(manager.clear_credentials("elsewhere", "nobody"), Err(GitError::Backend(_))));
}

#[test]
fn a_branch_that_tracks_nothing_marks_no_record() {
    let path = fresh_repo("untracked_upstream");
    let manager = GitManager::new(&path);
    manager.commit("first").unwrap();
    let bare = fresh_path("untracked_upstream_remote");
    git2::Repository::init_bare(&bare).unwrap();
    set_remote(&path, "origin", &bare).unwrap();
    manager.push("origin", "main", None, None).unwrap();
    assert!(manager.get_recent_commits(5).unwrap()[0].is_on_upstream);

    {
        let repo = git2::Repository::open(&path).unwrap();
        let mut branch = repo.find_branch("main", git2::BranchType::Local).unwrap();
        branch.set_upstream(None).unwrap();
        assert!(repo.find_reference("refs/remotes/origin/main").is_ok());
    }
    let records = manager.get_recent_commits(5).unwrap();
    assert_eq!(records.len(), 1);
    assert!(!records[0].is_on_upstream);
}

#[test]
fn an_upstream_that_is_set_is_left_as_it_is() {
    let path = fresh_repo("kept_upstream");
    let manager = GitManager::new(&path);
    manager.commit("first").unwrap();
    let first = fresh_path("kept_upstream_first");
    let second = fresh_path("kept_upstream_second");
    git2::Repository::init_bare(&first).unwrap();
    git2::Repository::init_bare(&second).unwrap();
    set_remote(&path, "origin", &first).unwrap();
    set_remote(&path, "mirror", &second).unwrap();
    manager.push("origin", "main", None, None).unwrap();
    manager.push("mirror", "main", None, None).unwrap();

    let repo = git2::Repository::open(&path).unwrap();
    let branch = repo.find_branch("main", git2::BranchType::Local).unwrap();
    assert_eq!(branch.upstream().unwrap().name().unwrap(), Some("origin/main"));
}

#[test]
fn remote_with_an_empty_url_has_no_url() {
    let path = fresh_repo("empty_url");
    {
        let repo = git2::Repository::open(&path).unwrap();
        let mut config = repo.config().unwrap();
        config.set_str("remote.blank.url", "").unwrap();
    }
    match save_git_credentials(&path, "blank", "git", "secret") {
        Err(GitError::Backend(text)) => assert_eq!(text, "Remote URL is missing or invalid"),
        other => panic!("unexpected outcome: {:?}", other),
    }
    let manager = GitManager::new(&path);
    manager.commit("first").unwrap();
    assert!(manager.push("blank", "main", None, None).is_err());
}

use ide_backend::commands::{
    clear_git_credentials_cmd, commit_changes, get_git_config, get_git_status,
    get_recent_commits, git_pull, git_push, init_git_repo, init_git_repo_enhanced,
    is_git_repository, save_git_credentials_cmd, set_git_config, stage_file, unstage_file,
};

fn fresh_path(tag: &str) -> String {
    let nanos = std::time::SystemTime::now()
        .duration_since(std::time::UNIX_EPOCH)
        .map(|d| d.as_nanos())
        .unwrap_or(0);
    format!("/tmp/ide_backend_cmd_{}_{}", tag, nanos)
}

#[test]
fn commands_on_a_path_without_repository() {
    let path = fresh_path("absent");
    assert!(!is_git_repository(&path));
    let status = get_git_status(&path).unwrap();
    assert!(!status.is_git_repo);
    assert_eq!(
        stage_file(&path, "a.txt"),
        Err("Failed to stage file: Not a git repository".to_string())
    );
    assert_eq!(
        unstage_file(&path, "a.txt"),
        Err("Failed to unstage file: Not a git repository".to_string())
    );
    assert_eq!(
        commit_changes(&path, "msg"),
        Err("Failed to commit: Not a git repository".to_string())
    );
    assert_eq!(
        get_recent_commits(&path, 5).map(|v| v.len()),
        Err("Failed to get commits: Not a git repository".to_string())
    );
    assert_eq!(
        git_push(&path, None, None, None, None),
        Err("Failed to push: Not a git repository".to_string())
    );
    assert_eq!(
        git_pull(&path, None, None),
        Err("Failed to pull: Not a git repository".to_string())
    );
    assert_eq!(
        get_git_config(&path).map(|c| c.is_configured),
        Err("Failed to get git config: Not a git repository".to_string())
    );
    assert_eq!(
        set_git_config(&path, "n", "e"),
        Err("Failed to set git config: Not a git repository".to_string())
    );
    assert_eq!(
        save_git_credentials_cmd(&path, None, "git", "secret"),
        Err("Failed to save credentials: Not a git repository".to_string())
    );
    assert_eq!(
        clear_git_credentials_cmd(&path, None, "git"),
        Err("Failed to clear credentials: Not a git repository".to_string())
    );
}

#[test]
fn commands_default_the_remote_and_the_branch() {
    let path = fresh_path("defaults");
    assert!(init_git_repo(&path).unwrap().is_some());
    assert!(is_git_repository(&path));
    set_git_config(&path, "Tester", "tester@example.com").unwrap();
    let outcome = init_git_repo_enhanced(&path);
    assert!(outcome.result.success && outcome.ignore_file.is_none());

    assert_eq!(
        git_push(&path, None, None, None, None),
        Err("Failed to push: No commits to push (repository is empty)".to_string())
    );
    let id = commit_changes(&path, "first").unwrap();
    assert_eq!(id.len(), 40);
    assert_eq!(
        git_push(&path, None, None, None, None),
        Err("Failed to push: Remote 'origin' not found. Make sure to add the remote first: git remote add origin <url>".to_string())
    );
    assert_eq!(
        git_push(&path, Some("fork".to_string()), Some("dev".to_string()), None, None),
        Err("Failed to push: Remote 'fork' not found. Make sure to add the remote first: git remote add fork <url>".to_string())
    );
    let records = get_recent_commits(&path, 5).unwrap();
    assert_eq!(records.len(), 1);
    assert_eq!(records[0].message, "first");
    assert_eq!(get_git_status(&path).unwrap().branch, "main");
    assert!(git_pull(&path, None, None).unwrap_err().starts_with("Failed to pull: "));
}

#[test]
fn plain_init_failure_names_the_attempt_and_the_reason() {
    let path = "/proc/ide_backend_cannot_be_created/repo";
    match init_git_repo(path) {
        Err(text) => assert!(text.starts_with(
            "Failed to initialize git repository: Failed to initialize Git repository: "
        )),
        Ok(_) => panic!("a repository under /proc cannot be created"),
    }
    let outcome = init_git_repo_enhanced(path);
    assert!(!outcome.result.success);
    assert!(!outcome.result.needs_config);
    assert!(outcome.result.git_config.is_none());
    assert!(outcome.ignore_file.is_none());
    assert!(outcome.result.message.starts_with("Failed to initialize Git repository: "));
}

use ide_backend::status::{
    build_status, classify, snapshot_query, ChangeClass, ChangeFlags, StatusRecord,
};

fn flags(wm: bool, wn: bool, im: bool, inew: bool) -> ChangeFlags {
    ChangeFlags { worktree_modified: wm, worktree_new: wn, index_modified: im, index_new: inew }
}

#[test]
fn classification_tests_modified_first() {
    assert_eq!(classify(flags(true, true, true, true)), ChangeClass::Modified);
    assert_eq!(classify(flags(false, true, true, true)), ChangeClass::Untracked);
    assert_eq!(classify(flags(false, false, true, false)), ChangeClass::Staged);
    assert_eq!(classify(flags(false, false, false, true)), ChangeClass::Staged);
    assert_eq!(classify(flags(false, false, false, false)), ChangeClass::Unlisted);
}

#[test]
fn status_lists_keep_report_order() {
    let records = vec![
        StatusRecord { path: Some("b.txt".to_string()), flags: flags(false, false, false, true) },
        StatusRecord { path: Some("a.txt".to_string()), flags: flags(true, false, false, false) },
        StatusRecord { path: None, flags: flags(false, true, false, false) },
        StatusRecord { path: Some("c.txt".to_string()), flags: flags(false, false, true, false) },
        StatusRecord { path: Some("d.txt".to_string()), flags: flags(false, false, false, false) },
    ];
    let status = build_status("main".to_string(), &records);
    assert!(status.is_git_repo);
    assert_eq!(status.branch, "main");
    assert_eq!(status.modified, vec!["a.txt".to_string()]);
    assert_eq!(status.untracked, vec!["".to_string()]);
    assert_eq!(status.staged, vec!["b.txt".to_string(), "c.txt".to_string()]);
}

#[test]
fn snapshot_lists_untracked_files_but_neither_ignored_ones_nor_directory_contents() {
    let query = snapshot_query();
    assert!(query.include_untracked);
    assert!(!query.include_ignored);
    assert!(!query.recurse_untracked_dirs);
}

//! Classification of working-tree and index changes into the three lists of
//! a status snapshot.

use vstd::prelude::*;
use crate::model::{texts, GitStatus};

verus! {

/// What the backend is asked to list.
#[derive(Clone, Copy, Debug, PartialEq, Eq, Structural)]
pub struct StatusQuery {
    /// Files that are not tracked are listed.
    pub include_untracked: bool,
    /// Files that the ignore rules cover are listed.
    pub include_ignored: bool,
    /// The contents of untracked directories are listed, not only the
    /// directories.
    pub recurse_untracked_dirs: bool,
}

/// The query of a snapshot: ignored files are left out, untracked files are
/// listed, and an untracked directory is listed without its contents, which
/// bounds the cost in a large tree that is not committed.
pub open spec fn is_snapshot_query(query: StatusQuery) -> bool {
    query.include_untracked && !query.include_ignored && !query.recurse_untracked_dirs
}

/// The query that a snapshot is listed with.
pub fn snapshot_query() -> (r: StatusQuery)
    ensures
        is_snapshot_query(r),
{
    StatusQuery { include_untracked: true, include_ignored: false, recurse_untracked_dirs: false }
}

/// The four change flags that the classification reads.
#[derive(Clone, Copy, Debug, PartialEq, Eq, Structural)]
pub struct ChangeFlags {
    /// The working tree differs from the index.
    pub worktree_modified: bool,
    /// The path is new in the working tree and not tracked.
    pub worktree_new: bool,
    /// The index differs from HEAD.
    pub index_modified: bool,
    /// The path is new in the index.
    pub index_new: bool,
}

/// One changed path as the backend reports it. The path is absent when it is
/// not valid UTF-8.
#[derive(Clone, Debug)]
pub struct StatusRecord {
    pub path: Option<String>,
    pub flags: ChangeFlags,
}

/// The list of a snapshot that a change belongs to.
#[derive(Clone, Copy, Debug, PartialEq, Eq, Structural)]
pub enum ChangeClass {
    Modified,
    Untracked,
    Staged,
    /// The change is in none of the three lists.
    Unlisted,
}

/// A change is modified before it is untracked, untracked before it is
/// staged, and otherwise unlisted.
pub open spec fn class_of(flags: ChangeFlags) -> ChangeClass {
    if flags.worktree_modified {
        ChangeClass::Modified
    } else if flags.worktree_new {
        ChangeClass::Untracked
    } else if flags.index_modified || flags.index_new {
        ChangeClass::Staged
    } else {
        ChangeClass::Unlisted
    }
}

/// The path that a record is listed under: its own, or the empty path when
/// it has none.
pub open spec fn listed_path(record: StatusRecord) -> Seq<char> {
    match record.path {
        Some(p) => p@,
        None => Seq::empty(),
    }
}

/// The test that a record belongs to `class`.
pub open spec fn in_class(class: ChangeClass) -> spec_fn(StatusRecord) -> bool {
    |r: StatusRecord| class_of(r.flags) == class
}

/// The paths of the records of `class`, in the order of the report.
pub open spec fn paths_in_class(records: Seq<StatusRecord>, class: ChangeClass) -> Seq<Seq<char>> {
    records.filter(in_class(class)).map_values(|r: StatusRecord| listed_path(r))
}

/// Classifies one change.
pub fn classify(flags: ChangeFlags) -> (r: ChangeClass)
    ensures
        r == class_of(flags),
{
    if flags.worktree_modified {
        ChangeClass::Modified
    } else if flags.worktree_new {
        ChangeClass::Untracked
    } else if flags.index_modified || flags.index_new {
        ChangeClass::Staged
    } else {
        ChangeClass::Unlisted
    }
}

proof fn lemma_paths_step(records: Seq<StatusRecord>, next: StatusRecord, class: ChangeClass)
    ensures
        paths_in_class(records.push(next), class) == if class_of(next.flags) == class {
            paths_in_class(records, class).push(listed_path(next))
        } else {
            paths_in_class(records, class)
        },
{
    let f = |r: StatusRecord| listed_path(r);
    records.lemma_filter_push(next, in_class(class));
    if class_of(next.flags) == class {
        records.filter(in_class(class)).lemma_push_map_commute(f, next);
    }
}

/// A path is in the list of a class exactly when the report holds a record of
/// that class under that path.
pub proof fn lemma_listed_iff_reported(
    records: Seq<StatusRecord>,
    class: ChangeClass,
    path: Seq<char>,
)
    ensures
        paths_in_class(records, class).contains(path) <==> exists|i: int|
            0 <= i < records.len() && class_of(#[trigger] records[i].flags) == class
                && listed_path(records[i]) == path,
    decreases records.len(),
{
    if records.len() == 0 {
        assert(records.filter(in_class(class)) == Seq::<StatusRecord>::empty());
        assert(paths_in_class(records, class) == Seq::<Seq<char>>::empty());
    } else {
        let front = records.drop_last();
        let last = records.last();
        assert(records == front.push(last));
        lemma_paths_step(front, last, class);
        lemma_listed_iff_reported(front, class, path);
        let listed = paths_in_class(records, class);
        let before = paths_in_class(front, class);
        if listed.contains(path) {
            let k = choose|k: int| 0 <= k < listed.len() && listed[k] == path;
            if class_of(last.flags) == class && k == before.len() {
                assert(class_of(records[records.len() - 1].flags) == class);
            } else {
                assert(before[k] == path);
                let i = choose|i: int|
                    0 <= i < front.len() && class_of(#[trigger] front[i].flags) == class
                        && listed_path(front[i]) == path;
                assert(records[i] == front[i]);
            }
        }
        if exists|i: int|
            0 <= i < records.len() && class_of(#[trigger] records[i].flags) == class
                && listed_path(records[i]) == path {
            let i = choose|i: int|
                0 <= i < records.len() && class_of(#[trigger] records[i].flags) == class
                    && listed_path(records[i]) == path;
            if i == records.len() - 1 {
                assert(listed[before.len() as int] == path);
            } else {
                assert(front[i] == records[i]);
                let k = choose|k: int| 0 <= k < before.len() && before[k] == path;
                assert(listed[k] == path);
            }
        }
    }
}

/// A path that the report holds once, as changed in the index and not in the
/// working tree, is listed as staged and neither as modified nor as
/// untracked.
pub proof fn lemma_staged_path_is_only_staged(records: Seq<StatusRecord>, i: int)
    requires
        0 <= i < records.len(),
        !records[i].flags.worktree_modified,
        !records[i].flags.worktree_new,
        records[i].flags.index_new || records[i].flags.index_modified,
        forall|j: int|
            0 <= j < records.len() && j != i ==> listed_path(#[trigger] records[j]) != listed_path(
                records[i],
            ),
    ensures
        paths_in_class(records, ChangeClass::Staged).contains(listed_path(records[i])),
        !paths_in_class(records, ChangeClass::Modified).contains(listed_path(records[i])),
        !paths_in_class(records, ChangeClass::Untracked).contains(listed_path(records[i])),
{
    let path = listed_path(records[i]);
    lemma_listed_iff_reported(records, ChangeClass::Staged, path);
    lemma_listed_iff_reported(records, ChangeClass::Modified, path);
    lemma_listed_iff_reported(records, ChangeClass::Untracked, path);
    assert(class_of(records[i].flags) == ChangeClass::Staged);
}

/// How many records of `class` the report holds under `path`.
pub open spec fn times_reported(
    records: Seq<StatusRecord>,
    class: ChangeClass,
    path: Seq<char>,
) -> nat
    decreases records.len(),
{
    if records.len() == 0 {
        0
    } else {
        let before = times_reported(records.drop_last(), class, path);
        if class_of(records.last().flags) == class && listed_path(records.last()) == path {
            before + 1
        } else {
            before
        }
    }
}

/// A path is in the list of a class as often as the report holds a record of
/// that class under it.
pub proof fn lemma_listed_as_often_as_reported(
    records: Seq<StatusRecord>,
    class: ChangeClass,
    path: Seq<char>,
)
    ensures
        paths_in_class(records, class).to_multiset().count(path) == times_reported(
            records,
            class,
            path,
        ),
    decreases records.len(),
{
    broadcast use vstd::seq_lib::group_to_multiset_ensures;

    if records.len() == 0 {
        lemma_empty_report_lists_nothing(class);
        assert(records == Seq::<StatusRecord>::empty());
    } else {
        let front = records.drop_last();
        let last = records.last();
        assert(records == front.push(last));
        lemma_paths_step(front, last, class);
        lemma_listed_as_often_as_reported(front, class, path);
    }
}

/// A report that holds no record under `path` counts none.
proof fn lemma_unreported_counts_nothing(
    records: Seq<StatusRecord>,
    class: ChangeClass,
    path: Seq<char>,
)
    requires
        forall|j: int| 0 <= j < records.len() ==> listed_path(#[trigger] records[j]) != path,
    ensures
        times_reported(records, class, path) == 0,
    decreases records.len(),
{
    if records.len() > 0 {
        let front = records.drop_last();
        assert forall|j: int| 0 <= j < front.len() implies listed_path(#[trigger] front[j])
            != path by {
            assert(front[j] == records[j]);
        }
        lemma_unreported_counts_nothing(front, class, path);
    }
}

/// A path that the report holds once, as changed in the index and not in the
/// working tree, is listed as staged exactly once.
pub proof fn lemma_staged_path_is_listed_once(records: Seq<StatusRecord>, i: int)
    requires
        0 <= i < records.len(),
        !records[i].flags.worktree_modified,
        !records[i].flags.worktree_new,
        records[i].flags.index_new || records[i].flags.index_modified,
        forall|j: int|
            0 <= j < records.len() && j != i ==> listed_path(#[trigger] records[j]) != listed_path(
                records[i],
            ),
    ensures
        paths_in_class(records, ChangeClass::Staged).to_multiset().count(listed_path(records[i]))
            == 1,
    decreases records.len(),
{
    let path = listed_path(records[i]);
    let front = records.drop_last();
    lemma_listed_as_often_as_reported(records, ChangeClass::Staged, path);
    if i == records.len() - 1 {
        assert forall|j: int| 0 <= j < front.len() implies listed_path(#[trigger] front[j])
            != path by {
            assert(front[j] == records[j]);
        }
        lemma_unreported_counts_nothing(front, ChangeClass::Staged, path);
    } else {
        assert(front[i] == records[i]);
        assert forall|j: int| 0 <= j < front.len() && j != i implies listed_path(
            #[trigger] front[j],
        ) != listed_path(front[i]) by {
            assert(front[j] == records[j]);
        }
        lemma_staged_path_is_listed_once(front, i);
        lemma_listed_as_often_as_reported(front, ChangeClass::Staged, path);
    }
}

/// Every record of a report is in exactly one class: the three lists and the
/// unlisted records together are as many as the records.
pub proof fn lemma_every_record_has_one_class(records: Seq<StatusRecord>)
    ensures
        paths_in_class(records, ChangeClass::Modified).len() + paths_in_class(
            records,
            ChangeClass::Untracked,
        ).len() + paths_in_class(records, ChangeClass::Staged).len() + paths_in_class(
            records,
            ChangeClass::Unlisted,
        ).len() == records.len(),
    decreases records.len(),
{
    if records.len() == 0 {
        lemma_empty_report_lists_nothing(ChangeClass::Modified);
        lemma_empty_report_lists_nothing(ChangeClass::Untracked);
        lemma_empty_report_lists_nothing(ChangeClass::Staged);
        lemma_empty_report_lists_nothing(ChangeClass::Unlisted);
        assert(records == Seq::<StatusRecord>::empty());
    } else {
        let front = records.drop_last();
        let last = records.last();
        assert(records == front.push(last));
        lemma_every_record_has_one_class(front);
        lemma_paths_step(front, last, ChangeClass::Modified);
        lemma_paths_step(front, last, ChangeClass::Untracked);
        lemma_paths_step(front, last, ChangeClass::Staged);
        lemma_paths_step(front, last, ChangeClass::Unlisted);
    }
}

/// A report without changes gives three empty lists.
pub proof fn lemma_empty_report_lists_nothing(class: ChangeClass)
    ensures
        paths_in_class(Seq::<StatusRecord>::empty(), class) == Seq::<Seq<char>>::empty(),
{
    assert(Seq::<StatusRecord>::empty().filter(in_class(class)) == Seq::<StatusRecord>::empty());
}

/// Builds the snapshot of a repository on `branch` from the reported
/// changes: each record goes to the list of its class, under its path, and
/// the lists keep the order of the report.
pub fn build_status(branch: String, records: &Vec<StatusRecord>) -> (r: GitStatus)
    ensures
        r.is_git_repo,
        r.branch == branch,
        texts(r.modified@) == paths_in_class(records@, ChangeClass::Modified),
        texts(r.untracked@) == paths_in_class(records@, ChangeClass::Untracked),
        texts(r.staged@) == paths_in_class(records@, ChangeClass::Staged),
        r.wf(),
{
    let mut modified: Vec<String> = Vec::new();
    let mut untracked: Vec<String> = Vec::new();
    let mut staged: Vec<String> = Vec::new();
    let mut i: usize = 0;
    assert(records@.take(0) == Seq::<StatusRecord>::empty());
    while i < records.len()
        invariant
            i <= records.len(),
            texts(modified@) == paths_in_class(records@.take(i as int), ChangeClass::Modified),
            texts(untracked@) == paths_in_class(records@.take(i as int), ChangeClass::Untracked),
            texts(staged@) == paths_in_class(records@.take(i as int), ChangeClass::Staged),
        decreases records.len() - i,
    {
        let record = &records[i];
        let path = match &record.path {
            Some(p) => p.clone(),
            None => String::new(),
        };
        proof {
            let before = records@.take(i as int);
            assert(records@.take(i + 1) == before.push(*record));
            lemma_paths_step(before, *record, ChangeClass::Modified);
            lemma_paths_step(before, *record, ChangeClass::Untracked);
            lemma_paths_step(before, *record, ChangeClass::Staged);
            assert(path@ == listed_path(*record));
        }
        let ghost m0 = modified@;
        let ghost u0 = untracked@;
        let ghost s0 = staged@;
        match classify(record.flags) {
            ChangeClass::Modified => {
                modified.push(path);
                assert(texts(modified@) == texts(m0).push(path@));
            },
            ChangeClass::Untracked => {
                untracked.push(path);
                assert(texts(untracked@) == texts(u0).push(path@));
            },
            ChangeClass::Staged => {
                staged.push(path);
                assert(texts(staged@) == texts(s0).push(path@));
            },
            ChangeClass::Unlisted => {},
        }
        i += 1;
    }
    assert(records@.take(i as int) == records@);
    GitStatus { branch, modified, untracked, staged, is_git_repo: true }
}

} // verus!

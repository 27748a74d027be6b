//! The records of the history view, built from a walk of the commit graph.

use vstd::prelude::*;
use crate::head::HeadState;
use crate::model::{texts, GitCommit};
use crate::text::{leading, take_leading};

verus! {

/// The number of characters of an identifier that a record shows.
pub const SHORT_HASH_LEN: usize = 8;

/// The most ancestors of the upstream tip that are collected.
pub const UPSTREAM_WALK_LIMIT: usize = 1000;

/// A commit in the values that a record is made of.
#[derive(Clone, Debug)]
pub struct CommitInfo {
    /// The full identifier in hexadecimal.
    pub id: String,
    /// The message; absent when it is not valid UTF-8.
    pub message: Option<String>,
    /// The author's name; absent when it is not valid UTF-8.
    pub author: Option<String>,
    /// The commit time in seconds since the epoch.
    pub seconds: i64,
}

/// What the history view is built from.
#[derive(Debug)]
pub enum HistoryPlan {
    /// There is no history: the list is empty.
    Nothing,
    /// The walk from HEAD; `branch` is the short name of what HEAD resolved
    /// to, whose tracked upstream marks the records.
    Walk { branch: Option<String> },
}

/// The plan for a state of HEAD.
pub open spec fn history_plan_of(state: HeadState) -> HistoryPlan {
    match state {
        HeadState::Unborn => HistoryPlan::Nothing,
        HeadState::Resolved(head) => HistoryPlan::Walk { branch: head.shorthand },
    }
}

/// Decides what the history is built from: a repository without commits has
/// an empty history, which is no failure; otherwise HEAD is walked.
pub fn history_plan(state: HeadState) -> (r: HistoryPlan)
    ensures
        r == history_plan_of(state),
{
    match state {
        HeadState::Unborn => HistoryPlan::Nothing,
        HeadState::Resolved(head) => HistoryPlan::Walk { branch: head.shorthand },
    }
}

/// The message shown for a commit.
pub open spec fn shown_message(info: CommitInfo) -> Seq<char> {
    match info.message {
        Some(m) => m@,
        None => Seq::empty(),
    }
}

/// The author shown for a commit.
pub open spec fn shown_author(info: CommitInfo) -> Seq<char> {
    match info.author {
        Some(a) => a@,
        None => "Unknown"@,
    }
}

/// `record` is the record of `info`, given the identifiers reachable from
/// the upstream tip.
pub open spec fn is_record_of(
    record: GitCommit,
    info: CommitInfo,
    upstream: Seq<Seq<char>>,
) -> bool {
    &&& record.hash@ == leading(info.id@, SHORT_HASH_LEN as nat)
    &&& record.message@ == shown_message(info)
    &&& record.author@ == shown_author(info)
    &&& record.timestamp == info.seconds
    &&& record.is_on_head
    &&& record.is_on_upstream == upstream.contains(info.id@)
}

/// `records` is the history built from the commits of `walk`, in their
/// order, with `upstream` as the identifiers reachable from the tip that the
/// branch tracks.
pub open spec fn is_history_of(
    records: Seq<GitCommit>,
    walk: Seq<CommitInfo>,
    upstream: Seq<Seq<char>>,
) -> bool {
    &&& records.len() == walk.len()
    &&& forall|i: int| 0 <= i < walk.len() ==> is_record_of(#[trigger] records[i], walk[i], upstream)
}

/// `records` is a history built from `walk` and marked by an upstream set
/// that was collected within the limit of the upstream walk.
pub open spec fn is_marked_history(
    records: Seq<GitCommit>,
    walk: Seq<CommitInfo>,
    upstream: Seq<Seq<char>>,
) -> bool {
    upstream.len() <= UPSTREAM_WALK_LIMIT && is_history_of(records, walk, upstream)
}

/// `records` is a history: it was built from the commits of some walk, in
/// their order, and marked by one upstream set within the limit.
pub open spec fn is_some_history(records: Seq<GitCommit>) -> bool {
    exists|walk: Seq<CommitInfo>, upstream: Seq<Seq<char>>|
        is_marked_history(records, walk, upstream)
}

/// Whether `id` is among `ids`.
pub fn contains_id(ids: &Vec<String>, id: &String) -> (r: bool)
    ensures
        r == texts(ids@).contains(id@),
{
    let mut i: usize = 0;
    while i < ids.len()
        invariant
            i <= ids.len(),
            forall|j: int| 0 <= j < i ==> texts(ids@)[j] != id@,
        decreases ids.len() - i,
    {
        if ids[i] == *id {
            assert(texts(ids@)[i as int] == id@);
            return true;
        }
        i += 1;
    }
    false
}

/// Builds the record of one commit.
pub fn commit_record(info: &CommitInfo, upstream: &Vec<String>) -> (r: GitCommit)
    ensures
        is_record_of(r, *info, texts(upstream@)),
{
    let message = match &info.message {
        Some(m) => m.clone(),
        None => String::new(),
    };
    let author = match &info.author {
        Some(a) => a.clone(),
        None => String::from_str("Unknown"),
    };
    GitCommit {
        hash: take_leading(info.id.as_str(), SHORT_HASH_LEN),
        message,
        author,
        timestamp: info.seconds,
        is_on_head: true,
        is_on_upstream: contains_id(upstream, &info.id),
    }
}

/// Builds the records of a walk from HEAD, newest first as the walk gave
/// them: one record for each commit, in the same order, each marked as on
/// the upstream exactly when its identifier is among `upstream`.
pub fn build_history(walk: &Vec<CommitInfo>, upstream: &Vec<String>) -> (r: Vec<GitCommit>)
    ensures
        is_history_of(r@, walk@, texts(upstream@)),
{
    let mut out: Vec<GitCommit> = Vec::new();
    let mut i: usize = 0;
    while i < walk.len()
        invariant
            i <= walk.len(),
            out@.len() == i,
            forall|j: int| 0 <= j < i ==> is_record_of(#[trigger] out@[j], walk@[j], texts(upstream@)),
        decreases walk.len() - i,
    {
        let record = commit_record(&walk[i], upstream);
        out.push(record);
        i += 1;
    }
    out
}

/// With no upstream configured nothing is collected from it, and no record
/// is marked as on the upstream.
pub proof fn lemma_no_upstream_marks_none(record: GitCommit, info: CommitInfo)
    requires
        is_record_of(record, info, Seq::<Seq<char>>::empty()),
    ensures
        !record.is_on_upstream,
{
}

/// The hash of a record is the identifier cut to the short length: it is a
/// prefix of the identifier and never longer than the short length.
pub proof fn lemma_short_hash_is_prefix(record: GitCommit, info: CommitInfo, upstream: Seq<Seq<char>>)
    requires
        is_record_of(record, info, upstream),
    ensures
        record.hash@.len() <= SHORT_HASH_LEN,
        record.hash@.len() <= info.id@.len(),
        record.hash@ == info.id@.subrange(0, record.hash@.len() as int),
{
}

} // verus!
